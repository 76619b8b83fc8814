//! A mutable typed cursor into a single-owner tree. A [`PathMut`] holds a parent and a
//! projection down to a child, with exactly one live `&mut` at a time.
//!
//! A path's projections are the closures it was built with: `M` re-derives the focused node
//! mutably, `R` by shared reference. Nothing checks that they address the same node.

use std::marker::PhantomData;
use vstd::prelude::*;

verus! {

/// Typed mutable path to a `Node`: owned `Parent` plus the projections that re-derive `Node`.
///
/// `parent` is private; the only way up is [`into_parent`](PathMut::into_parent), which
/// consumes the path.
pub struct PathMut<Node, Parent, M, R> {
    parent: Parent,
    projection: M,
    shared: R,
    node: PhantomData<Node>,
}

impl<Node, Parent, M, R> PathMut<Node, Parent, M, R> {
    /// The parent the path owns.
    pub closed spec fn parent_view(&self) -> Parent {
        self.parent
    }

    /// The mutable projection.
    pub closed spec fn projection_view(&self) -> M {
        self.projection
    }

    /// The shared projection.
    pub closed spec fn shared_view(&self) -> R {
        self.shared
    }

    /// The parent path of this path.
    pub fn parent(&self) -> (r: &Parent)
        ensures
            *r == self.parent_view(),
    {
        &self.parent
    }

    /// Give up the focus and take the parent back.
    pub fn into_parent(self) -> (r: Parent)
        ensures
            r == self.parent_view(),
    {
        self.parent
    }

    /// Shared walk up to an ancestor, keeping this path.
    pub fn ancestor<Target>(&self) -> (r: &Target)
        where
            Self: HasAncestor<Target>,
        ensures
            *r == <Self as HasAncestor<Target>>::ancestor_view(self),
    {
        HasAncestor::ancestor(self)
    }

    /// Consuming walk up to an ancestor.
    pub fn into_ancestor<Target>(self) -> (r: Target)
        where
            Self: IntoAncestor<Target>,
        ensures
            r == <Self as HasAncestor<Target>>::ancestor_view(&self),
    {
        IntoAncestor::into_ancestor(self)
    }
}

impl<Node, Parent, M, R> PathMut<Node, Parent, M, R>
    where
        M: for<'p> Fn(&'p mut Parent) -> &'p mut Node,
        R: for<'p> Fn(&'p Parent) -> &'p Node,
{
    /// Parent plus two projections (write and read). Nothing checks that they address the
    /// same node.
    pub fn from_fn(parent: Parent, projection: M, shared: R) -> (r: Self)
        ensures
            r.parent_view() == parent,
            r.projection_view() == projection,
            r.shared_view() == shared,
    {
        PathMut { parent, projection, shared, node: PhantomData }
    }

    /// Parent plus boxed, possibly capturing, projections. Nothing checks that they address
    /// the same node.
    pub fn from_box(parent: Parent, projection: M, shared: R) -> (r: Self)
        ensures
            r.parent_view() == parent,
            r.projection_view() == projection,
            r.shared_view() == shared,
    {
        PathMut { parent, projection, shared, node: PhantomData }
    }

    /// Shared reference to the focused node: what the shared projection gives of the parent.
    pub fn get(&self) -> (r: &Node)
        requires
            self.shared_view().requires((&self.parent_view(),)),
        ensures
            self.shared_view().ensures((&self.parent_view(),), r),
    {
        (self.shared)(&self.parent)
    }

    /// Mutable reference to the focused node: what the mutable projection gives of the parent.
    /// The path keeps its projections, and what is written through the reference reaches the
    /// parent as the projection relates the two.
    pub fn get_mut(&mut self) -> (r: &mut Node)
        requires
            forall|p: &mut Parent|
                *p == old(self).parent_view() ==> #[trigger] old(self).projection_view().requires((p,)),
        ensures
            final(self).projection_view() == old(self).projection_view(),
            final(self).shared_view() == old(self).shared_view(),
            exists|p: &mut Parent, n: &mut Node|
                {
                    &&& *p == old(self).parent_view()
                    &&& *final(p) == final(self).parent_view()
                    &&& *n == *r
                    &&& *final(n) == *final(r)
                    &&& #[trigger] old(self).projection_view().ensures((p,), n)
                },
    {
        assert forall|p: &mut Parent| *p == self.parent implies #[trigger] self.projection.requires((p,)) by {
            assert(self.projection_view().requires((p,)));
        }
        let ghost fin = *final(self);
        let r = (self.projection)(&mut self.parent);
        proof {
            let p = choose|p: &mut Parent| call_ensures(old(self).projection, (p,), r) && *p == old(self).parent
                && *final(p) == fin.parent;
            assert(old(self).projection_view().ensures((p,), r));
            assert(fin == *final(old(self)));
        }
        r
    }
}

/// Walk up a path to an ancestor by shared reference; the path itself stays.
///
/// One impl per depth, to twelve. They cannot overlap: unifying two depths would need a type
/// that contains itself.
pub trait HasAncestor<Target> {
    /// The ancestor this walk reaches.
    spec fn ancestor_view(&self) -> Target;

    fn ancestor(&self) -> (r: &Target)
        ensures
            *r == self.ancestor_view(),
    ;
}

/// Consuming walk to an ancestor. Supertrait of [`HasAncestor`], so one bound gives both.
pub trait IntoAncestor<Target>: HasAncestor<Target> {
    fn into_ancestor(self) -> (r: Target)
        ensures
            r == <Self as HasAncestor<Target>>::ancestor_view(&self),
    ;
}

impl<T> HasAncestor<T> for T {
    open spec fn ancestor_view(&self) -> T {
        *self
    }

    fn ancestor(&self) -> (r: &T) {
        self
    }
}

impl<T> IntoAncestor<T> for T {
    fn into_ancestor(self) -> (r: T) {
        self
    }
}

impl<T, N0, MN0, RN0> HasAncestor<T> for PathMut<N0, T, MN0, RN0> {
    closed spec fn ancestor_view(&self) -> T {
        self.parent
    }

    fn ancestor(&self) -> (r: &T) {
        &self.parent
    }
}

impl<T, N0, MN0, RN0> IntoAncestor<T> for PathMut<N0, T, MN0, RN0> {
    fn into_ancestor(self) -> (r: T) {
        self.parent
    }
}

impl<T, N0, MN0, RN0, N1, MN1, RN1> HasAncestor<T> for PathMut<N0, PathMut<N1, T, MN1, RN1>, MN0, RN0> {
    closed spec fn ancestor_view(&self) -> T {
        self.parent.parent
    }

    fn ancestor(&self) -> (r: &T) {
        &self.parent.parent
    }
}

impl<T, N0, MN0, RN0, N1, MN1, RN1> IntoAncestor<T> for PathMut<N0, PathMut<N1, T, MN1, RN1>, MN0, RN0> {
    fn into_ancestor(self) -> (r: T) {
        self.parent.parent
    }
}

impl<T, N0, MN0, RN0, N1, MN1, RN1, N2, MN2, RN2> HasAncestor<T> for PathMut<N0, PathMut<N1, PathMut<N2, T, MN2, RN2>, MN1, RN1>, MN0, RN0> {
    closed spec fn ancestor_view(&self) -> T {
        self.parent.parent.parent
    }

    fn ancestor(&self) -> (r: &T) {
        &self.parent.parent.parent
    }
}

impl<T, N0, MN0, RN0, N1, MN1, RN1, N2, MN2, RN2> IntoAncestor<T> for PathMut<N0, PathMut<N1, PathMut<N2, T, MN2, RN2>, MN1, RN1>, MN0, RN0> {
    fn into_ancestor(self) -> (r: T) {
        self.parent.parent.parent
    }
}

impl<T, N0, MN0, RN0, N1, MN1, RN1, N2, MN2, RN2, N3, MN3, RN3> HasAncestor<T> for PathMut<N0, PathMut<N1, PathMut<N2, PathMut<N3, T, MN3, RN3>, MN2, RN2>, MN1, RN1>, MN0, RN0> {
    closed spec fn ancestor_view(&self) -> T {
        self.parent.parent.parent.parent
    }

    fn ancestor(&self) -> (r: &T) {
        &self.parent.parent.parent.parent
    }
}

impl<T, N0, MN0, RN0, N1, MN1, RN1, N2, MN2, RN2, N3, MN3, RN3> IntoAncestor<T> for PathMut<N0, PathMut<N1, PathMut<N2, PathMut<N3, T, MN3, RN3>, MN2, RN2>, MN1, RN1>, MN0, RN0> {
    fn into_ancestor(self) -> (r: T) {
        self.parent.parent.parent.parent
    }
}

impl<T, N0, MN0, RN0, N1, MN1, RN1, N2, MN2, RN2, N3, MN3, RN3, N4, MN4, RN4> HasAncestor<T> for PathMut<N0, PathMut<N1, PathMut<N2, PathMut<N3, PathMut<N4, T, MN4, RN4>, MN3, RN3>, MN2, RN2>, MN1, RN1>, MN0, RN0> {
    closed spec fn ancestor_view(&self) -> T {
        self.parent.parent.parent.parent.parent
    }

    fn ancestor(&self) -> (r: &T) {
        &self.parent.parent.parent.parent.parent
    }
}

impl<T, N0, MN0, RN0, N1, MN1, RN1, N2, MN2, RN2, N3, MN3, RN3, N4, MN4, RN4> IntoAncestor<T> for PathMut<N0, PathMut<N1, PathMut<N2, PathMut<N3, PathMut<N4, T, MN4, RN4>, MN3, RN3>, MN2, RN2>, MN1, RN1>, MN0, RN0> {
    fn into_ancestor(self) -> (r: T) {
        self.parent.parent.parent.parent.parent
    }
}

impl<T, N0, MN0, RN0, N1, MN1, RN1, N2, MN2, RN2, N3, MN3, RN3, N4, MN4, RN4, N5, MN5, RN5> HasAncestor<T> for PathMut<N0, PathMut<N1, PathMut<N2, PathMut<N3, PathMut<N4, PathMut<N5, T, MN5, RN5>, MN4, RN4>, MN3, RN3>, MN2, RN2>, MN1, RN1>, MN0, RN0> {
    closed spec fn ancestor_view(&self) -> T {
        self.parent.parent.parent.parent.parent.parent
    }

    fn ancestor(&self) -> (r: &T) {
        &self.parent.parent.parent.parent.parent.parent
    }
}

impl<T, N0, MN0, RN0, N1, MN1, RN1, N2, MN2, RN2, N3, MN3, RN3, N4, MN4, RN4, N5, MN5, RN5> IntoAncestor<T> for PathMut<N0, PathMut<N1, PathMut<N2, PathMut<N3, PathMut<N4, PathMut<N5, T, MN5, RN5>, MN4, RN4>, MN3, RN3>, MN2, RN2>, MN1, RN1>, MN0, RN0> {
    fn into_ancestor(self) -> (r: T) {
        self.parent.parent.parent.parent.parent.parent
    }
}

impl<T, N0, MN0, RN0, N1, MN1, RN1, N2, MN2, RN2, N3, MN3, RN3, N4, MN4, RN4, N5, MN5, RN5, N6, MN6, RN6> HasAncestor<T> for PathMut<N0, PathMut<N1, PathMut<N2, PathMut<N3, PathMut<N4, PathMut<N5, PathMut<N6, T, MN6, RN6>, MN5, RN5>, MN4, RN4>, MN3, RN3>, MN2, RN2>, MN1, RN1>, MN0, RN0> {
    closed spec fn ancestor_view(&self) -> T {
        self.parent.parent.parent.parent.parent.parent.parent
    }

    fn ancestor(&self) -> (r: &T) {
        &self.parent.parent.parent.parent.parent.parent.parent
    }
}

impl<T, N0, MN0, RN0, N1, MN1, RN1, N2, MN2, RN2, N3, MN3, RN3, N4, MN4, RN4, N5, MN5, RN5, N6, MN6, RN6> IntoAncestor<T> for PathMut<N0, PathMut<N1, PathMut<N2, PathMut<N3, PathMut<N4, PathMut<N5, PathMut<N6, T, MN6, RN6>, MN5, RN5>, MN4, RN4>, MN3, RN3>, MN2, RN2>, MN1, RN1>, MN0, RN0> {
    fn into_ancestor(self) -> (r: T) {
        self.parent.parent.parent.parent.parent.parent.parent
    }
}

impl<T, N0, MN0, RN0, N1, MN1, RN1, N2, MN2, RN2, N3, MN3, RN3, N4, MN4, RN4, N5, MN5, RN5, N6, MN6, RN6, N7, MN7, RN7> HasAncestor<T> for PathMut<N0, PathMut<N1, PathMut<N2, PathMut<N3, PathMut<N4, PathMut<N5, PathMut<N6, PathMut<N7, T, MN7, RN7>, MN6, RN6>, MN5, RN5>, MN4, RN4>, MN3, RN3>, MN2, RN2>, MN1, RN1>, MN0, RN0> {
    closed spec fn ancestor_view(&self) -> T {
        self.parent.parent.parent.parent.parent.parent.parent.parent
    }

    fn ancestor(&self) -> (r: &T) {
        &self.parent.parent.parent.parent.parent.parent.parent.parent
    }
}

impl<T, N0, MN0, RN0, N1, MN1, RN1, N2, MN2, RN2, N3, MN3, RN3, N4, MN4, RN4, N5, MN5, RN5, N6, MN6, RN6, N7, MN7, RN7> IntoAncestor<T> for PathMut<N0, PathMut<N1, PathMut<N2, PathMut<N3, PathMut<N4, PathMut<N5, PathMut<N6, PathMut<N7, T, MN7, RN7>, MN6, RN6>, MN5, RN5>, MN4, RN4>, MN3, RN3>, MN2, RN2>, MN1, RN1>, MN0, RN0> {
    fn into_ancestor(self) -> (r: T) {
        self.parent.parent.parent.parent.parent.parent.parent.parent
    }
}

impl<T, N0, MN0, RN0, N1, MN1, RN1, N2, MN2, RN2, N3, MN3, RN3, N4, MN4, RN4, N5, MN5, RN5, N6, MN6, RN6, N7, MN7, RN7, N8, MN8, RN8> HasAncestor<T> for PathMut<N0, PathMut<N1, PathMut<N2, PathMut<N3, PathMut<N4, PathMut<N5, PathMut<N6, PathMut<N7, PathMut<N8, T, MN8, RN8>, MN7, RN7>, MN6, RN6>, MN5, RN5>, MN4, RN4>, MN3, RN3>, MN2, RN2>, MN1, RN1>, MN0, RN0> {
    closed spec fn ancestor_view(&self) -> T {
        self.parent.parent.parent.parent.parent.parent.parent.parent.parent
    }

    fn ancestor(&self) -> (r: &T) {
        &self.parent.parent.parent.parent.parent.parent.parent.parent.parent
    }
}

impl<T, N0, MN0, RN0, N1, MN1, RN1, N2, MN2, RN2, N3, MN3, RN3, N4, MN4, RN4, N5, MN5, RN5, N6, MN6, RN6, N7, MN7, RN7, N8, MN8, RN8> IntoAncestor<T> for PathMut<N0, PathMut<N1, PathMut<N2, PathMut<N3, PathMut<N4, PathMut<N5, PathMut<N6, PathMut<N7, PathMut<N8, T, MN8, RN8>, MN7, RN7>, MN6, RN6>, MN5, RN5>, MN4, RN4>, MN3, RN3>, MN2, RN2>, MN1, RN1>, MN0, RN0> {
    fn into_ancestor(self) -> (r: T) {
        self.parent.parent.parent.parent.parent.parent.parent.parent.parent
    }
}

impl<T, N0, MN0, RN0, N1, MN1, RN1, N2, MN2, RN2, N3, MN3, RN3, N4, MN4, RN4, N5, MN5, RN5, N6, MN6, RN6, N7, MN7, RN7, N8, MN8, RN8, N9, MN9, RN9> HasAncestor<T> for PathMut<N0, PathMut<N1, PathMut<N2, PathMut<N3, PathMut<N4, PathMut<N5, PathMut<N6, PathMut<N7, PathMut<N8, PathMut<N9, T, MN9, RN9>, MN8, RN8>, MN7, RN7>, MN6, RN6>, MN5, RN5>, MN4, RN4>, MN3, RN3>, MN2, RN2>, MN1, RN1>, MN0, RN0> {
    closed spec fn ancestor_view(&self) -> T {
        self.parent.parent.parent.parent.parent.parent.parent.parent.parent.parent
    }

    fn ancestor(&self) -> (r: &T) {
        &self.parent.parent.parent.parent.parent.parent.parent.parent.parent.parent
    }
}

impl<T, N0, MN0, RN0, N1, MN1, RN1, N2, MN2, RN2, N3, MN3, RN3, N4, MN4, RN4, N5, MN5, RN5, N6, MN6, RN6, N7, MN7, RN7, N8, MN8, RN8, N9, MN9, RN9> IntoAncestor<T> for PathMut<N0, PathMut<N1, PathMut<N2, PathMut<N3, PathMut<N4, PathMut<N5, PathMut<N6, PathMut<N7, PathMut<N8, PathMut<N9, T, MN9, RN9>, MN8, RN8>, MN7, RN7>, MN6, RN6>, MN5, RN5>, MN4, RN4>, MN3, RN3>, MN2, RN2>, MN1, RN1>, MN0, RN0> {
    fn into_ancestor(self) -> (r: T) {
        self.parent.parent.parent.parent.parent.parent.parent.parent.parent.parent
    }
}

impl<T, N0, MN0, RN0, N1, MN1, RN1, N2, MN2, RN2, N3, MN3, RN3, N4, MN4, RN4, N5, MN5, RN5, N6, MN6, RN6, N7, MN7, RN7, N8, MN8, RN8, N9, MN9, RN9, N10, MN10, RN10> HasAncestor<T> for PathMut<N0, PathMut<N1, PathMut<N2, PathMut<N3, PathMut<N4, PathMut<N5, PathMut<N6, PathMut<N7, PathMut<N8, PathMut<N9, PathMut<N10, T, MN10, RN10>, MN9, RN9>, MN8, RN8>, MN7, RN7>, MN6, RN6>, MN5, RN5>, MN4, RN4>, MN3, RN3>, MN2, RN2>, MN1, RN1>, MN0, RN0> {
    closed spec fn ancestor_view(&self) -> T {
        self.parent.parent.parent.parent.parent.parent.parent.parent.parent.parent.parent
    }

    fn ancestor(&self) -> (r: &T) {
        &self.parent.parent.parent.parent.parent.parent.parent.parent.parent.parent.parent
    }
}

impl<T, N0, MN0, RN0, N1, MN1, RN1, N2, MN2, RN2, N3, MN3, RN3, N4, MN4, RN4, N5, MN5, RN5, N6, MN6, RN6, N7, MN7, RN7, N8, MN8, RN8, N9, MN9, RN9, N10, MN10, RN10> IntoAncestor<T> for PathMut<N0, PathMut<N1, PathMut<N2, PathMut<N3, PathMut<N4, PathMut<N5, PathMut<N6, PathMut<N7, PathMut<N8, PathMut<N9, PathMut<N10, T, MN10, RN10>, MN9, RN9>, MN8, RN8>, MN7, RN7>, MN6, RN6>, MN5, RN5>, MN4, RN4>, MN3, RN3>, MN2, RN2>, MN1, RN1>, MN0, RN0> {
    fn into_ancestor(self) -> (r: T) {
        self.parent.parent.parent.parent.parent.parent.parent.parent.parent.parent.parent
    }
}

impl<T, N0, MN0, RN0, N1, MN1, RN1, N2, MN2, RN2, N3, MN3, RN3, N4, MN4, RN4, N5, MN5, RN5, N6, MN6, RN6, N7, MN7, RN7, N8, MN8, RN8, N9, MN9, RN9, N10, MN10, RN10, N11, MN11, RN11> HasAncestor<T> for PathMut<N0, PathMut<N1, PathMut<N2, PathMut<N3, PathMut<N4, PathMut<N5, PathMut<N6, PathMut<N7, PathMut<N8, PathMut<N9, PathMut<N10, PathMut<N11, T, MN11, RN11>, MN10, RN10>, MN9, RN9>, MN8, RN8>, MN7, RN7>, MN6, RN6>, MN5, RN5>, MN4, RN4>, MN3, RN3>, MN2, RN2>, MN1, RN1>, MN0, RN0> {
    closed spec fn ancestor_view(&self) -> T {
        self.parent.parent.parent.parent.parent.parent.parent.parent.parent.parent.parent.parent
    }

    fn ancestor(&self) -> (r: &T) {
        &self.parent.parent.parent.parent.parent.parent.parent.parent.parent.parent.parent.parent
    }
}

impl<T, N0, MN0, RN0, N1, MN1, RN1, N2, MN2, RN2, N3, MN3, RN3, N4, MN4, RN4, N5, MN5, RN5, N6, MN6, RN6, N7, MN7, RN7, N8, MN8, RN8, N9, MN9, RN9, N10, MN10, RN10, N11, MN11, RN11> IntoAncestor<T> for PathMut<N0, PathMut<N1, PathMut<N2, PathMut<N3, PathMut<N4, PathMut<N5, PathMut<N6, PathMut<N7, PathMut<N8, PathMut<N9, PathMut<N10, PathMut<N11, T, MN11, RN11>, MN10, RN10>, MN9, RN9>, MN8, RN8>, MN7, RN7>, MN6, RN6>, MN5, RN5>, MN4, RN4>, MN3, RN3>, MN2, RN2>, MN1, RN1>, MN0, RN0> {
    fn into_ancestor(self) -> (r: T) {
        self.parent.parent.parent.parent.parent.parent.parent.parent.parent.parent.parent.parent
    }
}

/// Where a leave stopped: here, or further up.
pub enum Stop<H, U> {
    Here(H),
    Up(U),
}

/// Child of the root: `Up` is the bare root path.
impl<'a, N, R, M, Q> Stop<PathMut<N, &'a mut R, M, Q>, &'a mut R> {
    pub fn to_maybe_invalidated(self) -> (r: MaybeInvalidated<&'a mut R>)
        ensures
            r == (match self {
                Stop::Here(child) => MaybeInvalidated::NotInvalidated(child.parent_view()),
                Stop::Up(root) => MaybeInvalidated::<&'a mut R>::Invalidated(
                    Completed::<&'a mut R>::from_stop(root),
                ),
            }),
    {
        match self {
            Stop::Here(child) => {
                let root = child.into_parent();
                let standing = MaybeInvalidated::NotInvalidated(root);
                standing
            },
            Stop::Up(root) => {
                let completed: Completed<&'a mut R> = CompletesTo::complete(root);
                let invalidated = MaybeInvalidated::Invalidated(completed);
                invalidated
            },
        }
    }
}

/// Child of a non-root: `Up` is the parent's own leave.
impl<N, N2, Q: Above, M, R, M2, R2> Stop<PathMut<N, PathMut<N2, Q, M2, R2>, M, R>, Completed<PathMut<N2, Q, M2, R2>>> {
    pub fn to_maybe_invalidated(self) -> (r: MaybeInvalidated<PathMut<N2, Q, M2, R2>>)
        ensures
            r == (match self {
                Stop::Here(child) => MaybeInvalidated::NotInvalidated(child.parent_view()),
                Stop::Up(rest) => MaybeInvalidated::Invalidated(rest),
            }),
    {
        match self {
            Stop::Here(child) => MaybeInvalidated::NotInvalidated(child.into_parent()),
            Stop::Up(rest) => MaybeInvalidated::Invalidated(rest),
        }
    }
}

/// Payload of `Stop::Up` for this path: the root itself, or a `Completed` from this path.
pub trait Above {
    type Up;
}

impl<'a, R> Above for &'a mut R {
    type Up = &'a mut R;
}

impl<N, P: Above, M, R> Above for PathMut<N, P, M, R> {
    type Up = Completed<Self>;
}

/// A node's path type. Place nodes implement this; a derived level does not.
pub trait HasPath {
    type Path<'a>
        where
            Self: 'a;
}

/// A path's stop layer. A root path can only stop at itself, so its layer is the bare path.
pub trait HasStop: Sized {
    type Stop;

    /// The state a leave from this path reopens to.
    spec fn reopen(completed: Completed<Self>) -> MaybeInvalidated<Self>;

    /// A leave that does not reopen comes back as it was.
    fn to_maybe_invalidated(completed: Completed<Self>) -> (r: MaybeInvalidated<Self>)
        ensures
            r == Self::reopen(completed),
            r matches MaybeInvalidated::Invalidated(back) ==> back == completed,
    ;
}

impl<N, P: Above, M, R> HasStop for PathMut<N, P, M, R> {
    type Stop = Stop<Self, P::Up>;

    closed spec fn reopen(completed: Completed<Self>) -> MaybeInvalidated<Self> {
        match completed.stop {
            Stop::Here(path) => MaybeInvalidated::NotInvalidated(path),
            Stop::Up(rest) => MaybeInvalidated::Invalidated(Completed { stop: Stop::Up(rest) }),
        }
    }

    fn to_maybe_invalidated(completed: Completed<Self>) -> (r: MaybeInvalidated<Self>) {
        match completed.stop {
            Stop::Here(path) => MaybeInvalidated::NotInvalidated(path),
            Stop::Up(rest) => MaybeInvalidated::Invalidated(Completed { stop: Stop::Up(rest) }),
        }
    }
}

impl<'a, R> HasStop for &'a mut R {
    type Stop = &'a mut R;

    closed spec fn reopen(completed: Completed<Self>) -> MaybeInvalidated<Self> {
        MaybeInvalidated::NotInvalidated(completed.stop)
    }

    fn to_maybe_invalidated(completed: Completed<Self>) -> (r: MaybeInvalidated<Self>) {
        let standing = MaybeInvalidated::NotInvalidated(completed.stop);
        standing
    }
}

/// A node's own path after descent: still standing, or replaced by a leave that peeled past it.
pub enum MaybeInvalidated<P: HasStop> {
    NotInvalidated(P),
    /// Leave that peeled past this node. A [`Stop::Here`] inside means the path is recoverable.
    Invalidated(Completed<P>),
}

impl<P: HasStop + CompletesTo<P>> MaybeInvalidated<P> {
    /// The leave this state ends with: a standing path completes where it stands.
    pub open spec fn completed(self) -> Completed<P> {
        match self {
            MaybeInvalidated::NotInvalidated(path) => <P as CompletesTo<P>>::completed_view(path),
            MaybeInvalidated::Invalidated(completed) => completed,
        }
    }

    pub fn complete(self) -> (r: Completed<P>)
        ensures
            r == self.completed(),
    {
        match self {
            MaybeInvalidated::NotInvalidated(path) => path.complete(),
            MaybeInvalidated::Invalidated(completed) => completed,
        }
    }
}

impl<P: HasStop + CompletesTo<P>> MaybeInvalidated<P>
    where
        Completed<P>: TryIntoAncestor<P>,
{
    /// Run `f` with this node's path if the path can still be built. A standing path is lent.
    /// A leave that stopped here is recovered and the node stays invalidated. A leave that went
    /// above skips `f`.
    pub fn descend<F: FnOnce(P) -> Self>(self, f: F) -> (r: Self)
        requires
            forall|p: P| #[trigger] f.requires((p,)),
        ensures
            match self {
                MaybeInvalidated::NotInvalidated(p) => f.ensures((p,), r),
                MaybeInvalidated::Invalidated(completed) => match completed.try_view() {
                    Ok(p) => exists|x: Self| f.ensures((p,), x) && r == MaybeInvalidated::Invalidated(x.completed()),
                    Err(c) => r == MaybeInvalidated::<P>::Invalidated(c),
                },
            },
    {
        match self {
            MaybeInvalidated::NotInvalidated(p) => f(p),
            MaybeInvalidated::Invalidated(completed) => match completed.try_into_ancestor() {
                Ok(p) => {
                    let x = f(p);
                    MaybeInvalidated::Invalidated(x.complete())
                },
                Err(completed) => MaybeInvalidated::Invalidated(completed),
            },
        }
    }
}

impl<P: HasStop> MaybeInvalidated<P> {
    pub fn ancestor<Target>(&self) -> (r: &Target)
        where
            Self: HasAncestor<Target>,
        ensures
            *r == <Self as HasAncestor<Target>>::ancestor_view(self),
    {
        HasAncestor::ancestor(self)
    }

    pub fn into_ancestor<Target>(self) -> (r: Target)
        where
            Self: IntoAncestor<Target>,
        ensures
            r == <Self as HasAncestor<Target>>::ancestor_view(&self),
    {
        IntoAncestor::into_ancestor(self)
    }

    /// `Err` when the leave this state holds went above `Target`; the state comes back so the
    /// caller can forward it.
    pub fn try_into_ancestor<Target>(self) -> (r: Result<Target, Self>)
        where
            Self: TryIntoAncestor<Target>,
        ensures
            r == <Self as TryIntoAncestor<Target>>::try_view(self),
            r matches Err(back) ==> back == self,
    {
        TryIntoAncestor::try_into_ancestor(self)
    }
}

/// Both branches of the state hold the root.
impl<'a, R, P> HasAncestor<&'a mut R> for MaybeInvalidated<P>
    where
        P: HasStop + HasAncestor<&'a mut R>,
        Completed<P>: HasAncestor<&'a mut R>,
{
    open spec fn ancestor_view(&self) -> &'a mut R {
        match self {
            MaybeInvalidated::NotInvalidated(path) => path.ancestor_view(),
            MaybeInvalidated::Invalidated(completed) => completed.ancestor_view(),
        }
    }

    fn ancestor(&self) -> (r: &&'a mut R) {
        match self {
            MaybeInvalidated::NotInvalidated(path) => HasAncestor::ancestor(path),
            MaybeInvalidated::Invalidated(completed) => HasAncestor::ancestor(completed),
        }
    }
}

impl<'a, R, P> IntoAncestor<&'a mut R> for MaybeInvalidated<P>
    where
        P: HasStop + IntoAncestor<&'a mut R>,
        Completed<P>: IntoAncestor<&'a mut R>,
{
    fn into_ancestor(self) -> (r: &'a mut R) {
        match self {
            MaybeInvalidated::NotInvalidated(path) => IntoAncestor::into_ancestor(path),
            MaybeInvalidated::Invalidated(completed) => IntoAncestor::into_ancestor(completed),
        }
    }
}

/// Reach an ancestor a leave may have destroyed. `Err` returns `self` unchanged so the caller
/// can still forward the leave. The root is always `Ok`.
pub trait TryIntoAncestor<Target>: Sized {
    /// What the walk gives: the ancestor, or the value back.
    spec fn try_view(self) -> Result<Target, Self>;

    /// `Err` hands the value back unchanged.
    fn try_into_ancestor(self) -> (r: Result<Target, Self>)
        ensures
            r == self.try_view(),
            r matches Err(back) ==> back == self,
    ;
}

/// Distance zero: the leave reaches its own origin iff it stopped there.
impl<T: HasStop> TryIntoAncestor<T> for Completed<T> {
    open spec fn try_view(self) -> Result<T, Self> {
        match T::reopen(self) {
            MaybeInvalidated::NotInvalidated(path) => Ok(path),
            MaybeInvalidated::Invalidated(completed) => Err(completed),
        }
    }

    fn try_into_ancestor(self) -> (r: Result<T, Self>) {
        match self.to_maybe_invalidated() {
            MaybeInvalidated::NotInvalidated(path) => Ok(path),
            MaybeInvalidated::Invalidated(completed) => Err(completed),
        }
    }
}

/// Distance one to the root: always `Ok`.
impl<'a, R, H, M, Q> TryIntoAncestor<&'a mut R> for Completed<PathMut<H, &'a mut R, M, Q>> {
    open spec fn try_view(self) -> Result<&'a mut R, Self> {
        match self.stop_view() {
            Stop::Here(path) => Ok(path.parent_view()),
            Stop::Up(root) => Ok(root),
        }
    }

    fn try_into_ancestor(self) -> (r: Result<&'a mut R, Self>) {
        match self.into_inner() {
            Stop::Here(path) => {
                let root = path.into_parent();
                let reached = Ok(root);
                reached
            },
            Stop::Up(root) => {
                let reached = Ok(root);
                reached
            },
        }
    }
}

/// Distance one to a non-root ancestor: `Ok` iff the leave stopped at or below it.
impl<H, N2, Q: Above, M, R, M2, R2> TryIntoAncestor<PathMut<N2, Q, M2, R2>> for Completed<PathMut<H, PathMut<N2, Q, M2, R2>, M, R>> {
    open spec fn try_view(self) -> Result<PathMut<N2, Q, M2, R2>, Self> {
        match self.stop_view() {
            Stop::Here(path) => Ok(path.parent_view()),
            Stop::Up(up) => match <Completed<PathMut<N2, Q, M2, R2>> as TryIntoAncestor<PathMut<N2, Q, M2, R2>>>::try_view(up) {
                Ok(p) => Ok(p),
                Err(c) => Err(Completed::<PathMut<H, PathMut<N2, Q, M2, R2>, M, R>>::from_stop(Stop::Up(c))),
            },
        }
    }

    fn try_into_ancestor(self) -> (r: Result<PathMut<N2, Q, M2, R2>, Self>) {
        match self.into_inner() {
            Stop::Here(path) => Ok(path.into_parent()),
            Stop::Up(up) => match up.try_into_ancestor() {
                Ok(p) => Ok(p),
                Err(c) => Err(Completed::up(c)),
            },
        }
    }
}

impl<T, H0, MH0, RH0, H1, MH1, RH1> TryIntoAncestor<T> for Completed<PathMut<H0, PathMut<H1, T, MH1, RH1>, MH0, RH0>>
    where
        T: Above,
        Completed<PathMut<H1, T, MH1, RH1>>: TryIntoAncestor<T>,
{
    open spec fn try_view(self) -> Result<T, Self> {
        match self.stop_view() {
            Stop::Here(path) => Ok(<PathMut<H0, PathMut<H1, T, MH1, RH1>, MH0, RH0> as HasAncestor<T>>::ancestor_view(&path)),
            Stop::Up(up) => match <Completed<PathMut<H1, T, MH1, RH1>> as TryIntoAncestor<T>>::try_view(up) {
                Ok(t) => Ok(t),
                Err(c) => Err(Completed::<PathMut<H0, PathMut<H1, T, MH1, RH1>, MH0, RH0>>::from_stop(Stop::Up(c))),
            },
        }
    }

    fn try_into_ancestor(self) -> (r: Result<T, Self>) {
        match self.into_inner() {
            Stop::Here(path) => Ok(IntoAncestor::<T>::into_ancestor(path)),
            Stop::Up(up) => match up.try_into_ancestor() {
                Ok(t) => Ok(t),
                Err(c) => Err(Completed::up(c)),
            },
        }
    }
}

impl<T, H0, MH0, RH0, H1, MH1, RH1, H2, MH2, RH2> TryIntoAncestor<T> for Completed<PathMut<H0, PathMut<H1, PathMut<H2, T, MH2, RH2>, MH1, RH1>, MH0, RH0>>
    where
        T: Above,
        Completed<PathMut<H1, PathMut<H2, T, MH2, RH2>, MH1, RH1>>: TryIntoAncestor<T>,
{
    open spec fn try_view(self) -> Result<T, Self> {
        match self.stop_view() {
            Stop::Here(path) => Ok(<PathMut<H0, PathMut<H1, PathMut<H2, T, MH2, RH2>, MH1, RH1>, MH0, RH0> as HasAncestor<T>>::ancestor_view(&path)),
            Stop::Up(up) => match <Completed<PathMut<H1, PathMut<H2, T, MH2, RH2>, MH1, RH1>> as TryIntoAncestor<T>>::try_view(up) {
                Ok(t) => Ok(t),
                Err(c) => Err(Completed::<PathMut<H0, PathMut<H1, PathMut<H2, T, MH2, RH2>, MH1, RH1>, MH0, RH0>>::from_stop(Stop::Up(c))),
            },
        }
    }

    fn try_into_ancestor(self) -> (r: Result<T, Self>) {
        match self.into_inner() {
            Stop::Here(path) => Ok(IntoAncestor::<T>::into_ancestor(path)),
            Stop::Up(up) => match up.try_into_ancestor() {
                Ok(t) => Ok(t),
                Err(c) => Err(Completed::up(c)),
            },
        }
    }
}

impl<T, H0, MH0, RH0, H1, MH1, RH1, H2, MH2, RH2, H3, MH3, RH3> TryIntoAncestor<T> for Completed<PathMut<H0, PathMut<H1, PathMut<H2, PathMut<H3, T, MH3, RH3>, MH2, RH2>, MH1, RH1>, MH0, RH0>>
    where
        T: Above,
        Completed<PathMut<H1, PathMut<H2, PathMut<H3, T, MH3, RH3>, MH2, RH2>, MH1, RH1>>: TryIntoAncestor<T>,
{
    open spec fn try_view(self) -> Result<T, Self> {
        match self.stop_view() {
            Stop::Here(path) => Ok(<PathMut<H0, PathMut<H1, PathMut<H2, PathMut<H3, T, MH3, RH3>, MH2, RH2>, MH1, RH1>, MH0, RH0> as HasAncestor<T>>::ancestor_view(&path)),
            Stop::Up(up) => match <Completed<PathMut<H1, PathMut<H2, PathMut<H3, T, MH3, RH3>, MH2, RH2>, MH1, RH1>> as TryIntoAncestor<T>>::try_view(up) {
                Ok(t) => Ok(t),
                Err(c) => Err(Completed::<PathMut<H0, PathMut<H1, PathMut<H2, PathMut<H3, T, MH3, RH3>, MH2, RH2>, MH1, RH1>, MH0, RH0>>::from_stop(Stop::Up(c))),
            },
        }
    }

    fn try_into_ancestor(self) -> (r: Result<T, Self>) {
        match self.into_inner() {
            Stop::Here(path) => Ok(IntoAncestor::<T>::into_ancestor(path)),
            Stop::Up(up) => match up.try_into_ancestor() {
                Ok(t) => Ok(t),
                Err(c) => Err(Completed::up(c)),
            },
        }
    }
}

impl<T, H0, MH0, RH0, H1, MH1, RH1, H2, MH2, RH2, H3, MH3, RH3, H4, MH4, RH4> TryIntoAncestor<T> for Completed<PathMut<H0, PathMut<H1, PathMut<H2, PathMut<H3, PathMut<H4, T, MH4, RH4>, MH3, RH3>, MH2, RH2>, MH1, RH1>, MH0, RH0>>
    where
        T: Above,
        Completed<PathMut<H1, PathMut<H2, PathMut<H3, PathMut<H4, T, MH4, RH4>, MH3, RH3>, MH2, RH2>, MH1, RH1>>: TryIntoAncestor<T>,
{
    open spec fn try_view(self) -> Result<T, Self> {
        match self.stop_view() {
            Stop::Here(path) => Ok(<PathMut<H0, PathMut<H1, PathMut<H2, PathMut<H3, PathMut<H4, T, MH4, RH4>, MH3, RH3>, MH2, RH2>, MH1, RH1>, MH0, RH0> as HasAncestor<T>>::ancestor_view(&path)),
            Stop::Up(up) => match <Completed<PathMut<H1, PathMut<H2, PathMut<H3, PathMut<H4, T, MH4, RH4>, MH3, RH3>, MH2, RH2>, MH1, RH1>> as TryIntoAncestor<T>>::try_view(up) {
                Ok(t) => Ok(t),
                Err(c) => Err(Completed::<PathMut<H0, PathMut<H1, PathMut<H2, PathMut<H3, PathMut<H4, T, MH4, RH4>, MH3, RH3>, MH2, RH2>, MH1, RH1>, MH0, RH0>>::from_stop(Stop::Up(c))),
            },
        }
    }

    fn try_into_ancestor(self) -> (r: Result<T, Self>) {
        match self.into_inner() {
            Stop::Here(path) => Ok(IntoAncestor::<T>::into_ancestor(path)),
            Stop::Up(up) => match up.try_into_ancestor() {
                Ok(t) => Ok(t),
                Err(c) => Err(Completed::up(c)),
            },
        }
    }
}

impl<T, H0, MH0, RH0, H1, MH1, RH1, H2, MH2, RH2, H3, MH3, RH3, H4, MH4, RH4, H5, MH5, RH5> TryIntoAncestor<T> for Completed<PathMut<H0, PathMut<H1, PathMut<H2, PathMut<H3, PathMut<H4, PathMut<H5, T, MH5, RH5>, MH4, RH4>, MH3, RH3>, MH2, RH2>, MH1, RH1>, MH0, RH0>>
    where
        T: Above,
        Completed<PathMut<H1, PathMut<H2, PathMut<H3, PathMut<H4, PathMut<H5, T, MH5, RH5>, MH4, RH4>, MH3, RH3>, MH2, RH2>, MH1, RH1>>: TryIntoAncestor<T>,
{
    open spec fn try_view(self) -> Result<T, Self> {
        match self.stop_view() {
            Stop::Here(path) => Ok(<PathMut<H0, PathMut<H1, PathMut<H2, PathMut<H3, PathMut<H4, PathMut<H5, T, MH5, RH5>, MH4, RH4>, MH3, RH3>, MH2, RH2>, MH1, RH1>, MH0, RH0> as HasAncestor<T>>::ancestor_view(&path)),
            Stop::Up(up) => match <Completed<PathMut<H1, PathMut<H2, PathMut<H3, PathMut<H4, PathMut<H5, T, MH5, RH5>, MH4, RH4>, MH3, RH3>, MH2, RH2>, MH1, RH1>> as TryIntoAncestor<T>>::try_view(up) {
                Ok(t) => Ok(t),
                Err(c) => Err(Completed::<PathMut<H0, PathMut<H1, PathMut<H2, PathMut<H3, PathMut<H4, PathMut<H5, T, MH5, RH5>, MH4, RH4>, MH3, RH3>, MH2, RH2>, MH1, RH1>, MH0, RH0>>::from_stop(Stop::Up(c))),
            },
        }
    }

    fn try_into_ancestor(self) -> (r: Result<T, Self>) {
        match self.into_inner() {
            Stop::Here(path) => Ok(IntoAncestor::<T>::into_ancestor(path)),
            Stop::Up(up) => match up.try_into_ancestor() {
                Ok(t) => Ok(t),
                Err(c) => Err(Completed::up(c)),
            },
        }
    }
}

impl<T, H0, MH0, RH0, H1, MH1, RH1, H2, MH2, RH2, H3, MH3, RH3, H4, MH4, RH4, H5, MH5, RH5, H6, MH6, RH6> TryIntoAncestor<T> for Completed<PathMut<H0, PathMut<H1, PathMut<H2, PathMut<H3, PathMut<H4, PathMut<H5, PathMut<H6, T, MH6, RH6>, MH5, RH5>, MH4, RH4>, MH3, RH3>, MH2, RH2>, MH1, RH1>, MH0, RH0>>
    where
        T: Above,
        Completed<PathMut<H1, PathMut<H2, PathMut<H3, PathMut<H4, PathMut<H5, PathMut<H6, T, MH6, RH6>, MH5, RH5>, MH4, RH4>, MH3, RH3>, MH2, RH2>, MH1, RH1>>: TryIntoAncestor<T>,
{
    open spec fn try_view(self) -> Result<T, Self> {
        match self.stop_view() {
            Stop::Here(path) => Ok(<PathMut<H0, PathMut<H1, PathMut<H2, PathMut<H3, PathMut<H4, PathMut<H5, PathMut<H6, T, MH6, RH6>, MH5, RH5>, MH4, RH4>, MH3, RH3>, MH2, RH2>, MH1, RH1>, MH0, RH0> as HasAncestor<T>>::ancestor_view(&path)),
            Stop::Up(up) => match <Completed<PathMut<H1, PathMut<H2, PathMut<H3, PathMut<H4, PathMut<H5, PathMut<H6, T, MH6, RH6>, MH5, RH5>, MH4, RH4>, MH3, RH3>, MH2, RH2>, MH1, RH1>> as TryIntoAncestor<T>>::try_view(up) {
                Ok(t) => Ok(t),
                Err(c) => Err(Completed::<PathMut<H0, PathMut<H1, PathMut<H2, PathMut<H3, PathMut<H4, PathMut<H5, PathMut<H6, T, MH6, RH6>, MH5, RH5>, MH4, RH4>, MH3, RH3>, MH2, RH2>, MH1, RH1>, MH0, RH0>>::from_stop(Stop::Up(c))),
            },
        }
    }

    fn try_into_ancestor(self) -> (r: Result<T, Self>) {
        match self.into_inner() {
            Stop::Here(path) => Ok(IntoAncestor::<T>::into_ancestor(path)),
            Stop::Up(up) => match up.try_into_ancestor() {
                Ok(t) => Ok(t),
                Err(c) => Err(Completed::up(c)),
            },
        }
    }
}

impl<T, H0, MH0, RH0, H1, MH1, RH1, H2, MH2, RH2, H3, MH3, RH3, H4, MH4, RH4, H5, MH5, RH5, H6, MH6, RH6, H7, MH7, RH7> TryIntoAncestor<T> for Completed<PathMut<H0, PathMut<H1, PathMut<H2, PathMut<H3, PathMut<H4, PathMut<H5, PathMut<H6, PathMut<H7, T, MH7, RH7>, MH6, RH6>, MH5, RH5>, MH4, RH4>, MH3, RH3>, MH2, RH2>, MH1, RH1>, MH0, RH0>>
    where
        T: Above,
        Completed<PathMut<H1, PathMut<H2, PathMut<H3, PathMut<H4, PathMut<H5, PathMut<H6, PathMut<H7, T, MH7, RH7>, MH6, RH6>, MH5, RH5>, MH4, RH4>, MH3, RH3>, MH2, RH2>, MH1, RH1>>: TryIntoAncestor<T>,
{
    open spec fn try_view(self) -> Result<T, Self> {
        match self.stop_view() {
            Stop::Here(path) => Ok(<PathMut<H0, PathMut<H1, PathMut<H2, PathMut<H3, PathMut<H4, PathMut<H5, PathMut<H6, PathMut<H7, T, MH7, RH7>, MH6, RH6>, MH5, RH5>, MH4, RH4>, MH3, RH3>, MH2, RH2>, MH1, RH1>, MH0, RH0> as HasAncestor<T>>::ancestor_view(&path)),
            Stop::Up(up) => match <Completed<PathMut<H1, PathMut<H2, PathMut<H3, PathMut<H4, PathMut<H5, PathMut<H6, PathMut<H7, T, MH7, RH7>, MH6, RH6>, MH5, RH5>, MH4, RH4>, MH3, RH3>, MH2, RH2>, MH1, RH1>> as TryIntoAncestor<T>>::try_view(up) {
                Ok(t) => Ok(t),
                Err(c) => Err(Completed::<PathMut<H0, PathMut<H1, PathMut<H2, PathMut<H3, PathMut<H4, PathMut<H5, PathMut<H6, PathMut<H7, T, MH7, RH7>, MH6, RH6>, MH5, RH5>, MH4, RH4>, MH3, RH3>, MH2, RH2>, MH1, RH1>, MH0, RH0>>::from_stop(Stop::Up(c))),
            },
        }
    }

    fn try_into_ancestor(self) -> (r: Result<T, Self>) {
        match self.into_inner() {
            Stop::Here(path) => Ok(IntoAncestor::<T>::into_ancestor(path)),
            Stop::Up(up) => match up.try_into_ancestor() {
                Ok(t) => Ok(t),
                Err(c) => Err(Completed::up(c)),
            },
        }
    }
}

impl<T, H0, MH0, RH0, H1, MH1, RH1, H2, MH2, RH2, H3, MH3, RH3, H4, MH4, RH4, H5, MH5, RH5, H6, MH6, RH6, H7, MH7, RH7, H8, MH8, RH8> TryIntoAncestor<T> for Completed<PathMut<H0, PathMut<H1, PathMut<H2, PathMut<H3, PathMut<H4, PathMut<H5, PathMut<H6, PathMut<H7, PathMut<H8, T, MH8, RH8>, MH7, RH7>, MH6, RH6>, MH5, RH5>, MH4, RH4>, MH3, RH3>, MH2, RH2>, MH1, RH1>, MH0, RH0>>
    where
        T: Above,
        Completed<PathMut<H1, PathMut<H2, PathMut<H3, PathMut<H4, PathMut<H5, PathMut<H6, PathMut<H7, PathMut<H8, T, MH8, RH8>, MH7, RH7>, MH6, RH6>, MH5, RH5>, MH4, RH4>, MH3, RH3>, MH2, RH2>, MH1, RH1>>: TryIntoAncestor<T>,
{
    open spec fn try_view(self) -> Result<T, Self> {
        match self.stop_view() {
            Stop::Here(path) => Ok(<PathMut<H0, PathMut<H1, PathMut<H2, PathMut<H3, PathMut<H4, PathMut<H5, PathMut<H6, PathMut<H7, PathMut<H8, T, MH8, RH8>, MH7, RH7>, MH6, RH6>, MH5, RH5>, MH4, RH4>, MH3, RH3>, MH2, RH2>, MH1, RH1>, MH0, RH0> as HasAncestor<T>>::ancestor_view(&path)),
            Stop::Up(up) => match <Completed<PathMut<H1, PathMut<H2, PathMut<H3, PathMut<H4, PathMut<H5, PathMut<H6, PathMut<H7, PathMut<H8, T, MH8, RH8>, MH7, RH7>, MH6, RH6>, MH5, RH5>, MH4, RH4>, MH3, RH3>, MH2, RH2>, MH1, RH1>> as TryIntoAncestor<T>>::try_view(up) {
                Ok(t) => Ok(t),
                Err(c) => Err(Completed::<PathMut<H0, PathMut<H1, PathMut<H2, PathMut<H3, PathMut<H4, PathMut<H5, PathMut<H6, PathMut<H7, PathMut<H8, T, MH8, RH8>, MH7, RH7>, MH6, RH6>, MH5, RH5>, MH4, RH4>, MH3, RH3>, MH2, RH2>, MH1, RH1>, MH0, RH0>>::from_stop(Stop::Up(c))),
            },
        }
    }

    fn try_into_ancestor(self) -> (r: Result<T, Self>) {
        match self.into_inner() {
            Stop::Here(path) => Ok(IntoAncestor::<T>::into_ancestor(path)),
            Stop::Up(up) => match up.try_into_ancestor() {
                Ok(t) => Ok(t),
                Err(c) => Err(Completed::up(c)),
            },
        }
    }
}

impl<T, H0, MH0, RH0, H1, MH1, RH1, H2, MH2, RH2, H3, MH3, RH3, H4, MH4, RH4, H5, MH5, RH5, H6, MH6, RH6, H7, MH7, RH7, H8, MH8, RH8, H9, MH9, RH9> TryIntoAncestor<T> for Completed<PathMut<H0, PathMut<H1, PathMut<H2, PathMut<H3, PathMut<H4, PathMut<H5, PathMut<H6, PathMut<H7, PathMut<H8, PathMut<H9, T, MH9, RH9>, MH8, RH8>, MH7, RH7>, MH6, RH6>, MH5, RH5>, MH4, RH4>, MH3, RH3>, MH2, RH2>, MH1, RH1>, MH0, RH0>>
    where
        T: Above,
        Completed<PathMut<H1, PathMut<H2, PathMut<H3, PathMut<H4, PathMut<H5, PathMut<H6, PathMut<H7, PathMut<H8, PathMut<H9, T, MH9, RH9>, MH8, RH8>, MH7, RH7>, MH6, RH6>, MH5, RH5>, MH4, RH4>, MH3, RH3>, MH2, RH2>, MH1, RH1>>: TryIntoAncestor<T>,
{
    open spec fn try_view(self) -> Result<T, Self> {
        match self.stop_view() {
            Stop::Here(path) => Ok(<PathMut<H0, PathMut<H1, PathMut<H2, PathMut<H3, PathMut<H4, PathMut<H5, PathMut<H6, PathMut<H7, PathMut<H8, PathMut<H9, T, MH9, RH9>, MH8, RH8>, MH7, RH7>, MH6, RH6>, MH5, RH5>, MH4, RH4>, MH3, RH3>, MH2, RH2>, MH1, RH1>, MH0, RH0> as HasAncestor<T>>::ancestor_view(&path)),
            Stop::Up(up) => match <Completed<PathMut<H1, PathMut<H2, PathMut<H3, PathMut<H4, PathMut<H5, PathMut<H6, PathMut<H7, PathMut<H8, PathMut<H9, T, MH9, RH9>, MH8, RH8>, MH7, RH7>, MH6, RH6>, MH5, RH5>, MH4, RH4>, MH3, RH3>, MH2, RH2>, MH1, RH1>> as TryIntoAncestor<T>>::try_view(up) {
                Ok(t) => Ok(t),
                Err(c) => Err(Completed::<PathMut<H0, PathMut<H1, PathMut<H2, PathMut<H3, PathMut<H4, PathMut<H5, PathMut<H6, PathMut<H7, PathMut<H8, PathMut<H9, T, MH9, RH9>, MH8, RH8>, MH7, RH7>, MH6, RH6>, MH5, RH5>, MH4, RH4>, MH3, RH3>, MH2, RH2>, MH1, RH1>, MH0, RH0>>::from_stop(Stop::Up(c))),
            },
        }
    }

    fn try_into_ancestor(self) -> (r: Result<T, Self>) {
        match self.into_inner() {
            Stop::Here(path) => Ok(IntoAncestor::<T>::into_ancestor(path)),
            Stop::Up(up) => match up.try_into_ancestor() {
                Ok(t) => Ok(t),
                Err(c) => Err(Completed::up(c)),
            },
        }
    }
}

impl<T, H0, MH0, RH0, H1, MH1, RH1, H2, MH2, RH2, H3, MH3, RH3, H4, MH4, RH4, H5, MH5, RH5, H6, MH6, RH6, H7, MH7, RH7, H8, MH8, RH8, H9, MH9, RH9, H10, MH10, RH10> TryIntoAncestor<T> for Completed<PathMut<H0, PathMut<H1, PathMut<H2, PathMut<H3, PathMut<H4, PathMut<H5, PathMut<H6, PathMut<H7, PathMut<H8, PathMut<H9, PathMut<H10, T, MH10, RH10>, MH9, RH9>, MH8, RH8>, MH7, RH7>, MH6, RH6>, MH5, RH5>, MH4, RH4>, MH3, RH3>, MH2, RH2>, MH1, RH1>, MH0, RH0>>
    where
        T: Above,
        Completed<PathMut<H1, PathMut<H2, PathMut<H3, PathMut<H4, PathMut<H5, PathMut<H6, PathMut<H7, PathMut<H8, PathMut<H9, PathMut<H10, T, MH10, RH10>, MH9, RH9>, MH8, RH8>, MH7, RH7>, MH6, RH6>, MH5, RH5>, MH4, RH4>, MH3, RH3>, MH2, RH2>, MH1, RH1>>: TryIntoAncestor<T>,
{
    open spec fn try_view(self) -> Result<T, Self> {
        match self.stop_view() {
            Stop::Here(path) => Ok(<PathMut<H0, PathMut<H1, PathMut<H2, PathMut<H3, PathMut<H4, PathMut<H5, PathMut<H6, PathMut<H7, PathMut<H8, PathMut<H9, PathMut<H10, T, MH10, RH10>, MH9, RH9>, MH8, RH8>, MH7, RH7>, MH6, RH6>, MH5, RH5>, MH4, RH4>, MH3, RH3>, MH2, RH2>, MH1, RH1>, MH0, RH0> as HasAncestor<T>>::ancestor_view(&path)),
            Stop::Up(up) => match <Completed<PathMut<H1, PathMut<H2, PathMut<H3, PathMut<H4, PathMut<H5, PathMut<H6, PathMut<H7, PathMut<H8, PathMut<H9, PathMut<H10, T, MH10, RH10>, MH9, RH9>, MH8, RH8>, MH7, RH7>, MH6, RH6>, MH5, RH5>, MH4, RH4>, MH3, RH3>, MH2, RH2>, MH1, RH1>> as TryIntoAncestor<T>>::try_view(up) {
                Ok(t) => Ok(t),
                Err(c) => Err(Completed::<PathMut<H0, PathMut<H1, PathMut<H2, PathMut<H3, PathMut<H4, PathMut<H5, PathMut<H6, PathMut<H7, PathMut<H8, PathMut<H9, PathMut<H10, T, MH10, RH10>, MH9, RH9>, MH8, RH8>, MH7, RH7>, MH6, RH6>, MH5, RH5>, MH4, RH4>, MH3, RH3>, MH2, RH2>, MH1, RH1>, MH0, RH0>>::from_stop(Stop::Up(c))),
            },
        }
    }

    fn try_into_ancestor(self) -> (r: Result<T, Self>) {
        match self.into_inner() {
            Stop::Here(path) => Ok(IntoAncestor::<T>::into_ancestor(path)),
            Stop::Up(up) => match up.try_into_ancestor() {
                Ok(t) => Ok(t),
                Err(c) => Err(Completed::up(c)),
            },
        }
    }
}

impl<T, H0, MH0, RH0, H1, MH1, RH1, H2, MH2, RH2, H3, MH3, RH3, H4, MH4, RH4, H5, MH5, RH5, H6, MH6, RH6, H7, MH7, RH7, H8, MH8, RH8, H9, MH9, RH9, H10, MH10, RH10, H11, MH11, RH11> TryIntoAncestor<T> for Completed<PathMut<H0, PathMut<H1, PathMut<H2, PathMut<H3, PathMut<H4, PathMut<H5, PathMut<H6, PathMut<H7, PathMut<H8, PathMut<H9, PathMut<H10, PathMut<H11, T, MH11, RH11>, MH10, RH10>, MH9, RH9>, MH8, RH8>, MH7, RH7>, MH6, RH6>, MH5, RH5>, MH4, RH4>, MH3, RH3>, MH2, RH2>, MH1, RH1>, MH0, RH0>>
    where
        T: Above,
        Completed<PathMut<H1, PathMut<H2, PathMut<H3, PathMut<H4, PathMut<H5, PathMut<H6, PathMut<H7, PathMut<H8, PathMut<H9, PathMut<H10, PathMut<H11, T, MH11, RH11>, MH10, RH10>, MH9, RH9>, MH8, RH8>, MH7, RH7>, MH6, RH6>, MH5, RH5>, MH4, RH4>, MH3, RH3>, MH2, RH2>, MH1, RH1>>: TryIntoAncestor<T>,
{
    open spec fn try_view(self) -> Result<T, Self> {
        match self.stop_view() {
            Stop::Here(path) => Ok(<PathMut<H0, PathMut<H1, PathMut<H2, PathMut<H3, PathMut<H4, PathMut<H5, PathMut<H6, PathMut<H7, PathMut<H8, PathMut<H9, PathMut<H10, PathMut<H11, T, MH11, RH11>, MH10, RH10>, MH9, RH9>, MH8, RH8>, MH7, RH7>, MH6, RH6>, MH5, RH5>, MH4, RH4>, MH3, RH3>, MH2, RH2>, MH1, RH1>, MH0, RH0> as HasAncestor<T>>::ancestor_view(&path)),
            Stop::Up(up) => match <Completed<PathMut<H1, PathMut<H2, PathMut<H3, PathMut<H4, PathMut<H5, PathMut<H6, PathMut<H7, PathMut<H8, PathMut<H9, PathMut<H10, PathMut<H11, T, MH11, RH11>, MH10, RH10>, MH9, RH9>, MH8, RH8>, MH7, RH7>, MH6, RH6>, MH5, RH5>, MH4, RH4>, MH3, RH3>, MH2, RH2>, MH1, RH1>> as TryIntoAncestor<T>>::try_view(up) {
                Ok(t) => Ok(t),
                Err(c) => Err(Completed::<PathMut<H0, PathMut<H1, PathMut<H2, PathMut<H3, PathMut<H4, PathMut<H5, PathMut<H6, PathMut<H7, PathMut<H8, PathMut<H9, PathMut<H10, PathMut<H11, T, MH11, RH11>, MH10, RH10>, MH9, RH9>, MH8, RH8>, MH7, RH7>, MH6, RH6>, MH5, RH5>, MH4, RH4>, MH3, RH3>, MH2, RH2>, MH1, RH1>, MH0, RH0>>::from_stop(Stop::Up(c))),
            },
        }
    }

    fn try_into_ancestor(self) -> (r: Result<T, Self>) {
        match self.into_inner() {
            Stop::Here(path) => Ok(IntoAncestor::<T>::into_ancestor(path)),
            Stop::Up(up) => match up.try_into_ancestor() {
                Ok(t) => Ok(t),
                Err(c) => Err(Completed::up(c)),
            },
        }
    }
}

impl<P, T> TryIntoAncestor<T> for MaybeInvalidated<P>
    where
        P: HasStop + IntoAncestor<T>,
        Completed<P>: TryIntoAncestor<T>,
{
    open spec fn try_view(self) -> Result<T, Self> {
        match self {
            MaybeInvalidated::NotInvalidated(path) => Ok(<P as HasAncestor<T>>::ancestor_view(&path)),
            MaybeInvalidated::Invalidated(completed) => match completed.try_view() {
                Ok(t) => Ok(t),
                Err(c) => Err(MaybeInvalidated::Invalidated(c)),
            },
        }
    }

    fn try_into_ancestor(self) -> (r: Result<T, Self>) {
        match self {
            MaybeInvalidated::NotInvalidated(path) => Ok(path.into_ancestor()),
            MaybeInvalidated::Invalidated(completed) => match TryIntoAncestor::<T>::try_into_ancestor(completed) {
                Ok(t) => Ok(t),
                Err(c) => Err(MaybeInvalidated::Invalidated(c)),
            },
        }
    }
}

/// Completed leave from origin `P`. Constructed by [`CompletesTo::complete`] and
/// [`Completed::up`].
pub struct Completed<P: HasStop> {
    stop: P::Stop,
}

impl<P: HasStop> Completed<P> {
    /// Where the leave stopped.
    pub closed spec fn stop_view(self) -> P::Stop {
        self.stop
    }

    /// The leave that stopped at `stop`.
    pub closed spec fn from_stop(stop: P::Stop) -> Self {
        Completed { stop }
    }

    fn new(stop: P::Stop) -> (r: Self)
        ensures
            r == Self::from_stop(stop),
    {
        Completed { stop }
    }

    pub fn into_inner(self) -> (r: P::Stop)
        ensures
            r == self.stop_view(),
    {
        self.stop
    }

    pub fn to_maybe_invalidated(self) -> (r: MaybeInvalidated<P>)
        ensures
            r == P::reopen(self),
            r matches MaybeInvalidated::Invalidated(back) ==> back == self,
    {
        P::to_maybe_invalidated(self)
    }

    pub fn ancestor<Target>(&self) -> (r: &Target)
        where
            Self: HasAncestor<Target>,
        ensures
            *r == <Self as HasAncestor<Target>>::ancestor_view(self),
    {
        HasAncestor::ancestor(self)
    }

    pub fn into_ancestor<Target>(self) -> (r: Target)
        where
            Self: IntoAncestor<Target>,
        ensures
            r == <Self as HasAncestor<Target>>::ancestor_view(&self),
    {
        IntoAncestor::into_ancestor(self)
    }

    /// `Err` when the leave went above `Target`; it comes back so the caller can forward it.
    pub fn try_into_ancestor<Target>(self) -> (r: Result<Target, Self>)
        where
            Self: TryIntoAncestor<Target>,
        ensures
            r == <Self as TryIntoAncestor<Target>>::try_view(self),
            r matches Err(back) ==> back == self,
    {
        TryIntoAncestor::try_into_ancestor(self)
    }
}

impl<'a, R> HasAncestor<&'a mut R> for Completed<&'a mut R> {
    closed spec fn ancestor_view(&self) -> &'a mut R {
        self.stop
    }

    fn ancestor(&self) -> (r: &&'a mut R) {
        &self.stop
    }
}

impl<'a, R> IntoAncestor<&'a mut R> for Completed<&'a mut R> {
    fn into_ancestor(self) -> (r: &'a mut R) {
        self.into_inner()
    }
}

/// A leave holds the root on every inhabitant.
impl<'a, R, N, P, M, Q> HasAncestor<&'a mut R> for Completed<PathMut<N, P, M, Q>>
    where
        P: Above,
        PathMut<N, P, M, Q>: HasAncestor<&'a mut R>,
        P::Up: HasAncestor<&'a mut R>,
{
    closed spec fn ancestor_view(&self) -> &'a mut R {
        match self.stop {
            Stop::Here(path) => path.ancestor_view(),
            Stop::Up(rest) => rest.ancestor_view(),
        }
    }

    fn ancestor(&self) -> (r: &&'a mut R) {
        match &self.stop {
            Stop::Here(path) => HasAncestor::ancestor(path),
            Stop::Up(rest) => HasAncestor::ancestor(rest),
        }
    }
}

impl<'a, R, N, P, M, Q> IntoAncestor<&'a mut R> for Completed<PathMut<N, P, M, Q>>
    where
        P: Above,
        PathMut<N, P, M, Q>: IntoAncestor<&'a mut R>,
        P::Up: IntoAncestor<&'a mut R>,
{
    fn into_ancestor(self) -> (r: &'a mut R) {
        match self.stop {
            Stop::Here(path) => IntoAncestor::into_ancestor(path),
            Stop::Up(rest) => IntoAncestor::into_ancestor(rest),
        }
    }
}

/// Normalize a bare root path into a leave from the root.
impl<'a, R> From<&'a mut R> for Completed<&'a mut R> {
    fn from(root: &'a mut R) -> (r: Self) {
        let completed = Completed { stop: root };
        completed
    }
}

impl<'a, R> vstd::std_specs::convert::FromSpecImpl<&'a mut R> for Completed<&'a mut R> {
    open spec fn obeys_from_spec() -> bool {
        true
    }

    open spec fn from_spec(root: &'a mut R) -> Self {
        Completed::<&'a mut R>::from_stop(root)
    }
}

impl<N, Par: Above, M, R> Completed<PathMut<N, Par, M, R>> {
    /// Inverse of unwrapping one `Up` level: a parent that inspected its child's leave and must
    /// still return its own `Completed` uses this.
    pub fn up(above: Par::Up) -> (r: Self)
        ensures
            r.stop_view() == Stop::<PathMut<N, Par, M, R>, Par::Up>::Up(above),
    {
        Completed::new(Stop::Up(above))
    }
}

/// Complete a leave from origin `O` at this path.
///
/// `O` is a type parameter because one focus completes into every `Completed` whose chain
/// contains it. Impls are per peel distance; off-chain completes do not compile.
pub trait CompletesTo<O: HasStop> {
    /// The leave this focus completes to.
    spec fn completed_view(self) -> Completed<O>;

    fn complete(self) -> (r: Completed<O>)
        ensures
            r == self.completed_view(),
    ;
}

impl<N, P: Above, M, R> CompletesTo<PathMut<N, P, M, R>> for PathMut<N, P, M, R> {
    open spec fn completed_view(self) -> Completed<PathMut<N, P, M, R>> {
        Completed::<PathMut<N, P, M, R>>::from_stop(Stop::Here(self))
    }

    fn complete(self) -> (r: Completed<PathMut<N, P, M, R>>) {
        Completed::new(Stop::Here(self))
    }
}

impl<'a, R> CompletesTo<&'a mut R> for &'a mut R {
    open spec fn completed_view(self) -> Completed<&'a mut R> {
        Completed::<&'a mut R>::from_stop(self)
    }

    fn complete(self) -> (r: Completed<&'a mut R>) {
        Completed::new(self)
    }
}

impl<D0, MD0, RD0, N, P: Above, M, R> CompletesTo<PathMut<D0, PathMut<N, P, M, R>, MD0, RD0>> for PathMut<N, P, M, R> {
    open spec fn completed_view(self) -> Completed<PathMut<D0, PathMut<N, P, M, R>, MD0, RD0>> {
        Completed::<PathMut<D0, PathMut<N, P, M, R>, MD0, RD0>>::from_stop(Stop::Up(Completed::<PathMut<N, P, M, R>>::from_stop(Stop::Here(self))))
    }

    fn complete(self) -> (r: Completed<PathMut<D0, PathMut<N, P, M, R>, MD0, RD0>>) {
        Completed::new(Stop::Up(Completed::new(Stop::Here(self))))
    }
}

impl<'a, R, D0, MD0, RD0> CompletesTo<PathMut<D0, &'a mut R, MD0, RD0>> for &'a mut R {
    open spec fn completed_view(self) -> Completed<PathMut<D0, &'a mut R, MD0, RD0>> {
        Completed::<PathMut<D0, &'a mut R, MD0, RD0>>::from_stop(Stop::Up(self))
    }

    fn complete(self) -> (r: Completed<PathMut<D0, &'a mut R, MD0, RD0>>) {
        Completed::new(Stop::Up(self))
    }
}

impl<D0, MD0, RD0, D1, MD1, RD1, N, P: Above, M, R> CompletesTo<PathMut<D0, PathMut<D1, PathMut<N, P, M, R>, MD1, RD1>, MD0, RD0>> for PathMut<N, P, M, R> {
    open spec fn completed_view(self) -> Completed<PathMut<D0, PathMut<D1, PathMut<N, P, M, R>, MD1, RD1>, MD0, RD0>> {
        Completed::<PathMut<D0, PathMut<D1, PathMut<N, P, M, R>, MD1, RD1>, MD0, RD0>>::from_stop(Stop::Up(Completed::<PathMut<D1, PathMut<N, P, M, R>, MD1, RD1>>::from_stop(Stop::Up(Completed::<PathMut<N, P, M, R>>::from_stop(Stop::Here(self))))))
    }

    fn complete(self) -> (r: Completed<PathMut<D0, PathMut<D1, PathMut<N, P, M, R>, MD1, RD1>, MD0, RD0>>) {
        Completed::new(Stop::Up(Completed::new(Stop::Up(Completed::new(Stop::Here(self))))))
    }
}

impl<'a, R, D0, MD0, RD0, D1, MD1, RD1> CompletesTo<PathMut<D0, PathMut<D1, &'a mut R, MD1, RD1>, MD0, RD0>> for &'a mut R {
    open spec fn completed_view(self) -> Completed<PathMut<D0, PathMut<D1, &'a mut R, MD1, RD1>, MD0, RD0>> {
        Completed::<PathMut<D0, PathMut<D1, &'a mut R, MD1, RD1>, MD0, RD0>>::from_stop(Stop::Up(Completed::<PathMut<D1, &'a mut R, MD1, RD1>>::from_stop(Stop::Up(self))))
    }

    fn complete(self) -> (r: Completed<PathMut<D0, PathMut<D1, &'a mut R, MD1, RD1>, MD0, RD0>>) {
        Completed::new(Stop::Up(Completed::new(Stop::Up(self))))
    }
}

impl<D0, MD0, RD0, D1, MD1, RD1, D2, MD2, RD2, N, P: Above, M, R> CompletesTo<PathMut<D0, PathMut<D1, PathMut<D2, PathMut<N, P, M, R>, MD2, RD2>, MD1, RD1>, MD0, RD0>> for PathMut<N, P, M, R> {
    open spec fn completed_view(self) -> Completed<PathMut<D0, PathMut<D1, PathMut<D2, PathMut<N, P, M, R>, MD2, RD2>, MD1, RD1>, MD0, RD0>> {
        Completed::<PathMut<D0, PathMut<D1, PathMut<D2, PathMut<N, P, M, R>, MD2, RD2>, MD1, RD1>, MD0, RD0>>::from_stop(Stop::Up(Completed::<PathMut<D1, PathMut<D2, PathMut<N, P, M, R>, MD2, RD2>, MD1, RD1>>::from_stop(Stop::Up(Completed::<PathMut<D2, PathMut<N, P, M, R>, MD2, RD2>>::from_stop(Stop::Up(Completed::<PathMut<N, P, M, R>>::from_stop(Stop::Here(self))))))))
    }

    fn complete(self) -> (r: Completed<PathMut<D0, PathMut<D1, PathMut<D2, PathMut<N, P, M, R>, MD2, RD2>, MD1, RD1>, MD0, RD0>>) {
        Completed::new(Stop::Up(Completed::new(Stop::Up(Completed::new(Stop::Up(Completed::new(Stop::Here(self))))))))
    }
}

impl<'a, R, D0, MD0, RD0, D1, MD1, RD1, D2, MD2, RD2> CompletesTo<PathMut<D0, PathMut<D1, PathMut<D2, &'a mut R, MD2, RD2>, MD1, RD1>, MD0, RD0>> for &'a mut R {
    open spec fn completed_view(self) -> Completed<PathMut<D0, PathMut<D1, PathMut<D2, &'a mut R, MD2, RD2>, MD1, RD1>, MD0, RD0>> {
        Completed::<PathMut<D0, PathMut<D1, PathMut<D2, &'a mut R, MD2, RD2>, MD1, RD1>, MD0, RD0>>::from_stop(Stop::Up(Completed::<PathMut<D1, PathMut<D2, &'a mut R, MD2, RD2>, MD1, RD1>>::from_stop(Stop::Up(Completed::<PathMut<D2, &'a mut R, MD2, RD2>>::from_stop(Stop::Up(self))))))
    }

    fn complete(self) -> (r: Completed<PathMut<D0, PathMut<D1, PathMut<D2, &'a mut R, MD2, RD2>, MD1, RD1>, MD0, RD0>>) {
        Completed::new(Stop::Up(Completed::new(Stop::Up(Completed::new(Stop::Up(self))))))
    }
}

impl<D0, MD0, RD0, D1, MD1, RD1, D2, MD2, RD2, D3, MD3, RD3, N, P: Above, M, R> CompletesTo<PathMut<D0, PathMut<D1, PathMut<D2, PathMut<D3, PathMut<N, P, M, R>, MD3, RD3>, MD2, RD2>, MD1, RD1>, MD0, RD0>> for PathMut<N, P, M, R> {
    open spec fn completed_view(self) -> Completed<PathMut<D0, PathMut<D1, PathMut<D2, PathMut<D3, PathMut<N, P, M, R>, MD3, RD3>, MD2, RD2>, MD1, RD1>, MD0, RD0>> {
        Completed::<PathMut<D0, PathMut<D1, PathMut<D2, PathMut<D3, PathMut<N, P, M, R>, MD3, RD3>, MD2, RD2>, MD1, RD1>, MD0, RD0>>::from_stop(Stop::Up(Completed::<PathMut<D1, PathMut<D2, PathMut<D3, PathMut<N, P, M, R>, MD3, RD3>, MD2, RD2>, MD1, RD1>>::from_stop(Stop::Up(Completed::<PathMut<D2, PathMut<D3, PathMut<N, P, M, R>, MD3, RD3>, MD2, RD2>>::from_stop(Stop::Up(Completed::<PathMut<D3, PathMut<N, P, M, R>, MD3, RD3>>::from_stop(Stop::Up(Completed::<PathMut<N, P, M, R>>::from_stop(Stop::Here(self))))))))))
    }

    fn complete(self) -> (r: Completed<PathMut<D0, PathMut<D1, PathMut<D2, PathMut<D3, PathMut<N, P, M, R>, MD3, RD3>, MD2, RD2>, MD1, RD1>, MD0, RD0>>) {
        Completed::new(Stop::Up(Completed::new(Stop::Up(Completed::new(Stop::Up(Completed::new(Stop::Up(Completed::new(Stop::Here(self))))))))))
    }
}

impl<'a, R, D0, MD0, RD0, D1, MD1, RD1, D2, MD2, RD2, D3, MD3, RD3> CompletesTo<PathMut<D0, PathMut<D1, PathMut<D2, PathMut<D3, &'a mut R, MD3, RD3>, MD2, RD2>, MD1, RD1>, MD0, RD0>> for &'a mut R {
    open spec fn completed_view(self) -> Completed<PathMut<D0, PathMut<D1, PathMut<D2, PathMut<D3, &'a mut R, MD3, RD3>, MD2, RD2>, MD1, RD1>, MD0, RD0>> {
        Completed::<PathMut<D0, PathMut<D1, PathMut<D2, PathMut<D3, &'a mut R, MD3, RD3>, MD2, RD2>, MD1, RD1>, MD0, RD0>>::from_stop(Stop::Up(Completed::<PathMut<D1, PathMut<D2, PathMut<D3, &'a mut R, MD3, RD3>, MD2, RD2>, MD1, RD1>>::from_stop(Stop::Up(Completed::<PathMut<D2, PathMut<D3, &'a mut R, MD3, RD3>, MD2, RD2>>::from_stop(Stop::Up(Completed::<PathMut<D3, &'a mut R, MD3, RD3>>::from_stop(Stop::Up(self))))))))
    }

    fn complete(self) -> (r: Completed<PathMut<D0, PathMut<D1, PathMut<D2, PathMut<D3, &'a mut R, MD3, RD3>, MD2, RD2>, MD1, RD1>, MD0, RD0>>) {
        Completed::new(Stop::Up(Completed::new(Stop::Up(Completed::new(Stop::Up(Completed::new(Stop::Up(self))))))))
    }
}

impl<D0, MD0, RD0, D1, MD1, RD1, D2, MD2, RD2, D3, MD3, RD3, D4, MD4, RD4, N, P: Above, M, R> CompletesTo<PathMut<D0, PathMut<D1, PathMut<D2, PathMut<D3, PathMut<D4, PathMut<N, P, M, R>, MD4, RD4>, MD3, RD3>, MD2, RD2>, MD1, RD1>, MD0, RD0>> for PathMut<N, P, M, R> {
    open spec fn completed_view(self) -> Completed<PathMut<D0, PathMut<D1, PathMut<D2, PathMut<D3, PathMut<D4, PathMut<N, P, M, R>, MD4, RD4>, MD3, RD3>, MD2, RD2>, MD1, RD1>, MD0, RD0>> {
        Completed::<PathMut<D0, PathMut<D1, PathMut<D2, PathMut<D3, PathMut<D4, PathMut<N, P, M, R>, MD4, RD4>, MD3, RD3>, MD2, RD2>, MD1, RD1>, MD0, RD0>>::from_stop(Stop::Up(Completed::<PathMut<D1, PathMut<D2, PathMut<D3, PathMut<D4, PathMut<N, P, M, R>, MD4, RD4>, MD3, RD3>, MD2, RD2>, MD1, RD1>>::from_stop(Stop::Up(Completed::<PathMut<D2, PathMut<D3, PathMut<D4, PathMut<N, P, M, R>, MD4, RD4>, MD3, RD3>, MD2, RD2>>::from_stop(Stop::Up(Completed::<PathMut<D3, PathMut<D4, PathMut<N, P, M, R>, MD4, RD4>, MD3, RD3>>::from_stop(Stop::Up(Completed::<PathMut<D4, PathMut<N, P, M, R>, MD4, RD4>>::from_stop(Stop::Up(Completed::<PathMut<N, P, M, R>>::from_stop(Stop::Here(self))))))))))))
    }

    fn complete(self) -> (r: Completed<PathMut<D0, PathMut<D1, PathMut<D2, PathMut<D3, PathMut<D4, PathMut<N, P, M, R>, MD4, RD4>, MD3, RD3>, MD2, RD2>, MD1, RD1>, MD0, RD0>>) {
        Completed::new(Stop::Up(Completed::new(Stop::Up(Completed::new(Stop::Up(Completed::new(Stop::Up(Completed::new(Stop::Up(Completed::new(Stop::Here(self))))))))))))
    }
}

impl<'a, R, D0, MD0, RD0, D1, MD1, RD1, D2, MD2, RD2, D3, MD3, RD3, D4, MD4, RD4> CompletesTo<PathMut<D0, PathMut<D1, PathMut<D2, PathMut<D3, PathMut<D4, &'a mut R, MD4, RD4>, MD3, RD3>, MD2, RD2>, MD1, RD1>, MD0, RD0>> for &'a mut R {
    open spec fn completed_view(self) -> Completed<PathMut<D0, PathMut<D1, PathMut<D2, PathMut<D3, PathMut<D4, &'a mut R, MD4, RD4>, MD3, RD3>, MD2, RD2>, MD1, RD1>, MD0, RD0>> {
        Completed::<PathMut<D0, PathMut<D1, PathMut<D2, PathMut<D3, PathMut<D4, &'a mut R, MD4, RD4>, MD3, RD3>, MD2, RD2>, MD1, RD1>, MD0, RD0>>::from_stop(Stop::Up(Completed::<PathMut<D1, PathMut<D2, PathMut<D3, PathMut<D4, &'a mut R, MD4, RD4>, MD3, RD3>, MD2, RD2>, MD1, RD1>>::from_stop(Stop::Up(Completed::<PathMut<D2, PathMut<D3, PathMut<D4, &'a mut R, MD4, RD4>, MD3, RD3>, MD2, RD2>>::from_stop(Stop::Up(Completed::<PathMut<D3, PathMut<D4, &'a mut R, MD4, RD4>, MD3, RD3>>::from_stop(Stop::Up(Completed::<PathMut<D4, &'a mut R, MD4, RD4>>::from_stop(Stop::Up(self))))))))))
    }

    fn complete(self) -> (r: Completed<PathMut<D0, PathMut<D1, PathMut<D2, PathMut<D3, PathMut<D4, &'a mut R, MD4, RD4>, MD3, RD3>, MD2, RD2>, MD1, RD1>, MD0, RD0>>) {
        Completed::new(Stop::Up(Completed::new(Stop::Up(Completed::new(Stop::Up(Completed::new(Stop::Up(Completed::new(Stop::Up(self))))))))))
    }
}

impl<D0, MD0, RD0, D1, MD1, RD1, D2, MD2, RD2, D3, MD3, RD3, D4, MD4, RD4, D5, MD5, RD5, N, P: Above, M, R> CompletesTo<PathMut<D0, PathMut<D1, PathMut<D2, PathMut<D3, PathMut<D4, PathMut<D5, PathMut<N, P, M, R>, MD5, RD5>, MD4, RD4>, MD3, RD3>, MD2, RD2>, MD1, RD1>, MD0, RD0>> for PathMut<N, P, M, R> {
    open spec fn completed_view(self) -> Completed<PathMut<D0, PathMut<D1, PathMut<D2, PathMut<D3, PathMut<D4, PathMut<D5, PathMut<N, P, M, R>, MD5, RD5>, MD4, RD4>, MD3, RD3>, MD2, RD2>, MD1, RD1>, MD0, RD0>> {
        Completed::<PathMut<D0, PathMut<D1, PathMut<D2, PathMut<D3, PathMut<D4, PathMut<D5, PathMut<N, P, M, R>, MD5, RD5>, MD4, RD4>, MD3, RD3>, MD2, RD2>, MD1, RD1>, MD0, RD0>>::from_stop(Stop::Up(Completed::<PathMut<D1, PathMut<D2, PathMut<D3, PathMut<D4, PathMut<D5, PathMut<N, P, M, R>, MD5, RD5>, MD4, RD4>, MD3, RD3>, MD2, RD2>, MD1, RD1>>::from_stop(Stop::Up(Completed::<PathMut<D2, PathMut<D3, PathMut<D4, PathMut<D5, PathMut<N, P, M, R>, MD5, RD5>, MD4, RD4>, MD3, RD3>, MD2, RD2>>::from_stop(Stop::Up(Completed::<PathMut<D3, PathMut<D4, PathMut<D5, PathMut<N, P, M, R>, MD5, RD5>, MD4, RD4>, MD3, RD3>>::from_stop(Stop::Up(Completed::<PathMut<D4, PathMut<D5, PathMut<N, P, M, R>, MD5, RD5>, MD4, RD4>>::from_stop(Stop::Up(Completed::<PathMut<D5, PathMut<N, P, M, R>, MD5, RD5>>::from_stop(Stop::Up(Completed::<PathMut<N, P, M, R>>::from_stop(Stop::Here(self))))))))))))))
    }

    fn complete(self) -> (r: Completed<PathMut<D0, PathMut<D1, PathMut<D2, PathMut<D3, PathMut<D4, PathMut<D5, PathMut<N, P, M, R>, MD5, RD5>, MD4, RD4>, MD3, RD3>, MD2, RD2>, MD1, RD1>, MD0, RD0>>) {
        Completed::new(Stop::Up(Completed::new(Stop::Up(Completed::new(Stop::Up(Completed::new(Stop::Up(Completed::new(Stop::Up(Completed::new(Stop::Up(Completed::new(Stop::Here(self))))))))))))))
    }
}

impl<'a, R, D0, MD0, RD0, D1, MD1, RD1, D2, MD2, RD2, D3, MD3, RD3, D4, MD4, RD4, D5, MD5, RD5> CompletesTo<PathMut<D0, PathMut<D1, PathMut<D2, PathMut<D3, PathMut<D4, PathMut<D5, &'a mut R, MD5, RD5>, MD4, RD4>, MD3, RD3>, MD2, RD2>, MD1, RD1>, MD0, RD0>> for &'a mut R {
    open spec fn completed_view(self) -> Completed<PathMut<D0, PathMut<D1, PathMut<D2, PathMut<D3, PathMut<D4, PathMut<D5, &'a mut R, MD5, RD5>, MD4, RD4>, MD3, RD3>, MD2, RD2>, MD1, RD1>, MD0, RD0>> {
        Completed::<PathMut<D0, PathMut<D1, PathMut<D2, PathMut<D3, PathMut<D4, PathMut<D5, &'a mut R, MD5, RD5>, MD4, RD4>, MD3, RD3>, MD2, RD2>, MD1, RD1>, MD0, RD0>>::from_stop(Stop::Up(Completed::<PathMut<D1, PathMut<D2, PathMut<D3, PathMut<D4, PathMut<D5, &'a mut R, MD5, RD5>, MD4, RD4>, MD3, RD3>, MD2, RD2>, MD1, RD1>>::from_stop(Stop::Up(Completed::<PathMut<D2, PathMut<D3, PathMut<D4, PathMut<D5, &'a mut R, MD5, RD5>, MD4, RD4>, MD3, RD3>, MD2, RD2>>::from_stop(Stop::Up(Completed::<PathMut<D3, PathMut<D4, PathMut<D5, &'a mut R, MD5, RD5>, MD4, RD4>, MD3, RD3>>::from_stop(Stop::Up(Completed::<PathMut<D4, PathMut<D5, &'a mut R, MD5, RD5>, MD4, RD4>>::from_stop(Stop::Up(Completed::<PathMut<D5, &'a mut R, MD5, RD5>>::from_stop(Stop::Up(self))))))))))))
    }

    fn complete(self) -> (r: Completed<PathMut<D0, PathMut<D1, PathMut<D2, PathMut<D3, PathMut<D4, PathMut<D5, &'a mut R, MD5, RD5>, MD4, RD4>, MD3, RD3>, MD2, RD2>, MD1, RD1>, MD0, RD0>>) {
        Completed::new(Stop::Up(Completed::new(Stop::Up(Completed::new(Stop::Up(Completed::new(Stop::Up(Completed::new(Stop::Up(Completed::new(Stop::Up(self))))))))))))
    }
}

impl<D0, MD0, RD0, D1, MD1, RD1, D2, MD2, RD2, D3, MD3, RD3, D4, MD4, RD4, D5, MD5, RD5, D6, MD6, RD6, N, P: Above, M, R> CompletesTo<PathMut<D0, PathMut<D1, PathMut<D2, PathMut<D3, PathMut<D4, PathMut<D5, PathMut<D6, PathMut<N, P, M, R>, MD6, RD6>, MD5, RD5>, MD4, RD4>, MD3, RD3>, MD2, RD2>, MD1, RD1>, MD0, RD0>> for PathMut<N, P, M, R> {
    open spec fn completed_view(self) -> Completed<PathMut<D0, PathMut<D1, PathMut<D2, PathMut<D3, PathMut<D4, PathMut<D5, PathMut<D6, PathMut<N, P, M, R>, MD6, RD6>, MD5, RD5>, MD4, RD4>, MD3, RD3>, MD2, RD2>, MD1, RD1>, MD0, RD0>> {
        Completed::<PathMut<D0, PathMut<D1, PathMut<D2, PathMut<D3, PathMut<D4, PathMut<D5, PathMut<D6, PathMut<N, P, M, R>, MD6, RD6>, MD5, RD5>, MD4, RD4>, MD3, RD3>, MD2, RD2>, MD1, RD1>, MD0, RD0>>::from_stop(Stop::Up(Completed::<PathMut<D1, PathMut<D2, PathMut<D3, PathMut<D4, PathMut<D5, PathMut<D6, PathMut<N, P, M, R>, MD6, RD6>, MD5, RD5>, MD4, RD4>, MD3, RD3>, MD2, RD2>, MD1, RD1>>::from_stop(Stop::Up(Completed::<PathMut<D2, PathMut<D3, PathMut<D4, PathMut<D5, PathMut<D6, PathMut<N, P, M, R>, MD6, RD6>, MD5, RD5>, MD4, RD4>, MD3, RD3>, MD2, RD2>>::from_stop(Stop::Up(Completed::<PathMut<D3, PathMut<D4, PathMut<D5, PathMut<D6, PathMut<N, P, M, R>, MD6, RD6>, MD5, RD5>, MD4, RD4>, MD3, RD3>>::from_stop(Stop::Up(Completed::<PathMut<D4, PathMut<D5, PathMut<D6, PathMut<N, P, M, R>, MD6, RD6>, MD5, RD5>, MD4, RD4>>::from_stop(Stop::Up(Completed::<PathMut<D5, PathMut<D6, PathMut<N, P, M, R>, MD6, RD6>, MD5, RD5>>::from_stop(Stop::Up(Completed::<PathMut<D6, PathMut<N, P, M, R>, MD6, RD6>>::from_stop(Stop::Up(Completed::<PathMut<N, P, M, R>>::from_stop(Stop::Here(self))))))))))))))))
    }

    fn complete(self) -> (r: Completed<PathMut<D0, PathMut<D1, PathMut<D2, PathMut<D3, PathMut<D4, PathMut<D5, PathMut<D6, PathMut<N, P, M, R>, MD6, RD6>, MD5, RD5>, MD4, RD4>, MD3, RD3>, MD2, RD2>, MD1, RD1>, MD0, RD0>>) {
        Completed::new(Stop::Up(Completed::new(Stop::Up(Completed::new(Stop::Up(Completed::new(Stop::Up(Completed::new(Stop::Up(Completed::new(Stop::Up(Completed::new(Stop::Up(Completed::new(Stop::Here(self))))))))))))))))
    }
}

impl<'a, R, D0, MD0, RD0, D1, MD1, RD1, D2, MD2, RD2, D3, MD3, RD3, D4, MD4, RD4, D5, MD5, RD5, D6, MD6, RD6> CompletesTo<PathMut<D0, PathMut<D1, PathMut<D2, PathMut<D3, PathMut<D4, PathMut<D5, PathMut<D6, &'a mut R, MD6, RD6>, MD5, RD5>, MD4, RD4>, MD3, RD3>, MD2, RD2>, MD1, RD1>, MD0, RD0>> for &'a mut R {
    open spec fn completed_view(self) -> Completed<PathMut<D0, PathMut<D1, PathMut<D2, PathMut<D3, PathMut<D4, PathMut<D5, PathMut<D6, &'a mut R, MD6, RD6>, MD5, RD5>, MD4, RD4>, MD3, RD3>, MD2, RD2>, MD1, RD1>, MD0, RD0>> {
        Completed::<PathMut<D0, PathMut<D1, PathMut<D2, PathMut<D3, PathMut<D4, PathMut<D5, PathMut<D6, &'a mut R, MD6, RD6>, MD5, RD5>, MD4, RD4>, MD3, RD3>, MD2, RD2>, MD1, RD1>, MD0, RD0>>::from_stop(Stop::Up(Completed::<PathMut<D1, PathMut<D2, PathMut<D3, PathMut<D4, PathMut<D5, PathMut<D6, &'a mut R, MD6, RD6>, MD5, RD5>, MD4, RD4>, MD3, RD3>, MD2, RD2>, MD1, RD1>>::from_stop(Stop::Up(Completed::<PathMut<D2, PathMut<D3, PathMut<D4, PathMut<D5, PathMut<D6, &'a mut R, MD6, RD6>, MD5, RD5>, MD4, RD4>, MD3, RD3>, MD2, RD2>>::from_stop(Stop::Up(Completed::<PathMut<D3, PathMut<D4, PathMut<D5, PathMut<D6, &'a mut R, MD6, RD6>, MD5, RD5>, MD4, RD4>, MD3, RD3>>::from_stop(Stop::Up(Completed::<PathMut<D4, PathMut<D5, PathMut<D6, &'a mut R, MD6, RD6>, MD5, RD5>, MD4, RD4>>::from_stop(Stop::Up(Completed::<PathMut<D5, PathMut<D6, &'a mut R, MD6, RD6>, MD5, RD5>>::from_stop(Stop::Up(Completed::<PathMut<D6, &'a mut R, MD6, RD6>>::from_stop(Stop::Up(self))))))))))))))
    }

    fn complete(self) -> (r: Completed<PathMut<D0, PathMut<D1, PathMut<D2, PathMut<D3, PathMut<D4, PathMut<D5, PathMut<D6, &'a mut R, MD6, RD6>, MD5, RD5>, MD4, RD4>, MD3, RD3>, MD2, RD2>, MD1, RD1>, MD0, RD0>>) {
        Completed::new(Stop::Up(Completed::new(Stop::Up(Completed::new(Stop::Up(Completed::new(Stop::Up(Completed::new(Stop::Up(Completed::new(Stop::Up(Completed::new(Stop::Up(self))))))))))))))
    }
}

impl<D0, MD0, RD0, D1, MD1, RD1, D2, MD2, RD2, D3, MD3, RD3, D4, MD4, RD4, D5, MD5, RD5, D6, MD6, RD6, D7, MD7, RD7, N, P: Above, M, R> CompletesTo<PathMut<D0, PathMut<D1, PathMut<D2, PathMut<D3, PathMut<D4, PathMut<D5, PathMut<D6, PathMut<D7, PathMut<N, P, M, R>, MD7, RD7>, MD6, RD6>, MD5, RD5>, MD4, RD4>, MD3, RD3>, MD2, RD2>, MD1, RD1>, MD0, RD0>> for PathMut<N, P, M, R> {
    open spec fn completed_view(self) -> Completed<PathMut<D0, PathMut<D1, PathMut<D2, PathMut<D3, PathMut<D4, PathMut<D5, PathMut<D6, PathMut<D7, PathMut<N, P, M, R>, MD7, RD7>, MD6, RD6>, MD5, RD5>, MD4, RD4>, MD3, RD3>, MD2, RD2>, MD1, RD1>, MD0, RD0>> {
        Completed::<PathMut<D0, PathMut<D1, PathMut<D2, PathMut<D3, PathMut<D4, PathMut<D5, PathMut<D6, PathMut<D7, PathMut<N, P, M, R>, MD7, RD7>, MD6, RD6>, MD5, RD5>, MD4, RD4>, MD3, RD3>, MD2, RD2>, MD1, RD1>, MD0, RD0>>::from_stop(Stop::Up(Completed::<PathMut<D1, PathMut<D2, PathMut<D3, PathMut<D4, PathMut<D5, PathMut<D6, PathMut<D7, PathMut<N, P, M, R>, MD7, RD7>, MD6, RD6>, MD5, RD5>, MD4, RD4>, MD3, RD3>, MD2, RD2>, MD1, RD1>>::from_stop(Stop::Up(Completed::<PathMut<D2, PathMut<D3, PathMut<D4, PathMut<D5, PathMut<D6, PathMut<D7, PathMut<N, P, M, R>, MD7, RD7>, MD6, RD6>, MD5, RD5>, MD4, RD4>, MD3, RD3>, MD2, RD2>>::from_stop(Stop::Up(Completed::<PathMut<D3, PathMut<D4, PathMut<D5, PathMut<D6, PathMut<D7, PathMut<N, P, M, R>, MD7, RD7>, MD6, RD6>, MD5, RD5>, MD4, RD4>, MD3, RD3>>::from_stop(Stop::Up(Completed::<PathMut<D4, PathMut<D5, PathMut<D6, PathMut<D7, PathMut<N, P, M, R>, MD7, RD7>, MD6, RD6>, MD5, RD5>, MD4, RD4>>::from_stop(Stop::Up(Completed::<PathMut<D5, PathMut<D6, PathMut<D7, PathMut<N, P, M, R>, MD7, RD7>, MD6, RD6>, MD5, RD5>>::from_stop(Stop::Up(Completed::<PathMut<D6, PathMut<D7, PathMut<N, P, M, R>, MD7, RD7>, MD6, RD6>>::from_stop(Stop::Up(Completed::<PathMut<D7, PathMut<N, P, M, R>, MD7, RD7>>::from_stop(Stop::Up(Completed::<PathMut<N, P, M, R>>::from_stop(Stop::Here(self))))))))))))))))))
    }

    fn complete(self) -> (r: Completed<PathMut<D0, PathMut<D1, PathMut<D2, PathMut<D3, PathMut<D4, PathMut<D5, PathMut<D6, PathMut<D7, PathMut<N, P, M, R>, MD7, RD7>, MD6, RD6>, MD5, RD5>, MD4, RD4>, MD3, RD3>, MD2, RD2>, MD1, RD1>, MD0, RD0>>) {
        Completed::new(Stop::Up(Completed::new(Stop::Up(Completed::new(Stop::Up(Completed::new(Stop::Up(Completed::new(Stop::Up(Completed::new(Stop::Up(Completed::new(Stop::Up(Completed::new(Stop::Up(Completed::new(Stop::Here(self))))))))))))))))))
    }
}

impl<'a, R, D0, MD0, RD0, D1, MD1, RD1, D2, MD2, RD2, D3, MD3, RD3, D4, MD4, RD4, D5, MD5, RD5, D6, MD6, RD6, D7, MD7, RD7> CompletesTo<PathMut<D0, PathMut<D1, PathMut<D2, PathMut<D3, PathMut<D4, PathMut<D5, PathMut<D6, PathMut<D7, &'a mut R, MD7, RD7>, MD6, RD6>, MD5, RD5>, MD4, RD4>, MD3, RD3>, MD2, RD2>, MD1, RD1>, MD0, RD0>> for &'a mut R {
    open spec fn completed_view(self) -> Completed<PathMut<D0, PathMut<D1, PathMut<D2, PathMut<D3, PathMut<D4, PathMut<D5, PathMut<D6, PathMut<D7, &'a mut R, MD7, RD7>, MD6, RD6>, MD5, RD5>, MD4, RD4>, MD3, RD3>, MD2, RD2>, MD1, RD1>, MD0, RD0>> {
        Completed::<PathMut<D0, PathMut<D1, PathMut<D2, PathMut<D3, PathMut<D4, PathMut<D5, PathMut<D6, PathMut<D7, &'a mut R, MD7, RD7>, MD6, RD6>, MD5, RD5>, MD4, RD4>, MD3, RD3>, MD2, RD2>, MD1, RD1>, MD0, RD0>>::from_stop(Stop::Up(Completed::<PathMut<D1, PathMut<D2, PathMut<D3, PathMut<D4, PathMut<D5, PathMut<D6, PathMut<D7, &'a mut R, MD7, RD7>, MD6, RD6>, MD5, RD5>, MD4, RD4>, MD3, RD3>, MD2, RD2>, MD1, RD1>>::from_stop(Stop::Up(Completed::<PathMut<D2, PathMut<D3, PathMut<D4, PathMut<D5, PathMut<D6, PathMut<D7, &'a mut R, MD7, RD7>, MD6, RD6>, MD5, RD5>, MD4, RD4>, MD3, RD3>, MD2, RD2>>::from_stop(Stop::Up(Completed::<PathMut<D3, PathMut<D4, PathMut<D5, PathMut<D6, PathMut<D7, &'a mut R, MD7, RD7>, MD6, RD6>, MD5, RD5>, MD4, RD4>, MD3, RD3>>::from_stop(Stop::Up(Completed::<PathMut<D4, PathMut<D5, PathMut<D6, PathMut<D7, &'a mut R, MD7, RD7>, MD6, RD6>, MD5, RD5>, MD4, RD4>>::from_stop(Stop::Up(Completed::<PathMut<D5, PathMut<D6, PathMut<D7, &'a mut R, MD7, RD7>, MD6, RD6>, MD5, RD5>>::from_stop(Stop::Up(Completed::<PathMut<D6, PathMut<D7, &'a mut R, MD7, RD7>, MD6, RD6>>::from_stop(Stop::Up(Completed::<PathMut<D7, &'a mut R, MD7, RD7>>::from_stop(Stop::Up(self))))))))))))))))
    }

    fn complete(self) -> (r: Completed<PathMut<D0, PathMut<D1, PathMut<D2, PathMut<D3, PathMut<D4, PathMut<D5, PathMut<D6, PathMut<D7, &'a mut R, MD7, RD7>, MD6, RD6>, MD5, RD5>, MD4, RD4>, MD3, RD3>, MD2, RD2>, MD1, RD1>, MD0, RD0>>) {
        Completed::new(Stop::Up(Completed::new(Stop::Up(Completed::new(Stop::Up(Completed::new(Stop::Up(Completed::new(Stop::Up(Completed::new(Stop::Up(Completed::new(Stop::Up(Completed::new(Stop::Up(self))))))))))))))))
    }
}

impl<D0, MD0, RD0, D1, MD1, RD1, D2, MD2, RD2, D3, MD3, RD3, D4, MD4, RD4, D5, MD5, RD5, D6, MD6, RD6, D7, MD7, RD7, D8, MD8, RD8, N, P: Above, M, R> CompletesTo<PathMut<D0, PathMut<D1, PathMut<D2, PathMut<D3, PathMut<D4, PathMut<D5, PathMut<D6, PathMut<D7, PathMut<D8, PathMut<N, P, M, R>, MD8, RD8>, MD7, RD7>, MD6, RD6>, MD5, RD5>, MD4, RD4>, MD3, RD3>, MD2, RD2>, MD1, RD1>, MD0, RD0>> for PathMut<N, P, M, R> {
    open spec fn completed_view(self) -> Completed<PathMut<D0, PathMut<D1, PathMut<D2, PathMut<D3, PathMut<D4, PathMut<D5, PathMut<D6, PathMut<D7, PathMut<D8, PathMut<N, P, M, R>, MD8, RD8>, MD7, RD7>, MD6, RD6>, MD5, RD5>, MD4, RD4>, MD3, RD3>, MD2, RD2>, MD1, RD1>, MD0, RD0>> {
        Completed::<PathMut<D0, PathMut<D1, PathMut<D2, PathMut<D3, PathMut<D4, PathMut<D5, PathMut<D6, PathMut<D7, PathMut<D8, PathMut<N, P, M, R>, MD8, RD8>, MD7, RD7>, MD6, RD6>, MD5, RD5>, MD4, RD4>, MD3, RD3>, MD2, RD2>, MD1, RD1>, MD0, RD0>>::from_stop(Stop::Up(Completed::<PathMut<D1, PathMut<D2, PathMut<D3, PathMut<D4, PathMut<D5, PathMut<D6, PathMut<D7, PathMut<D8, PathMut<N, P, M, R>, MD8, RD8>, MD7, RD7>, MD6, RD6>, MD5, RD5>, MD4, RD4>, MD3, RD3>, MD2, RD2>, MD1, RD1>>::from_stop(Stop::Up(Completed::<PathMut<D2, PathMut<D3, PathMut<D4, PathMut<D5, PathMut<D6, PathMut<D7, PathMut<D8, PathMut<N, P, M, R>, MD8, RD8>, MD7, RD7>, MD6, RD6>, MD5, RD5>, MD4, RD4>, MD3, RD3>, MD2, RD2>>::from_stop(Stop::Up(Completed::<PathMut<D3, PathMut<D4, PathMut<D5, PathMut<D6, PathMut<D7, PathMut<D8, PathMut<N, P, M, R>, MD8, RD8>, MD7, RD7>, MD6, RD6>, MD5, RD5>, MD4, RD4>, MD3, RD3>>::from_stop(Stop::Up(Completed::<PathMut<D4, PathMut<D5, PathMut<D6, PathMut<D7, PathMut<D8, PathMut<N, P, M, R>, MD8, RD8>, MD7, RD7>, MD6, RD6>, MD5, RD5>, MD4, RD4>>::from_stop(Stop::Up(Completed::<PathMut<D5, PathMut<D6, PathMut<D7, PathMut<D8, PathMut<N, P, M, R>, MD8, RD8>, MD7, RD7>, MD6, RD6>, MD5, RD5>>::from_stop(Stop::Up(Completed::<PathMut<D6, PathMut<D7, PathMut<D8, PathMut<N, P, M, R>, MD8, RD8>, MD7, RD7>, MD6, RD6>>::from_stop(Stop::Up(Completed::<PathMut<D7, PathMut<D8, PathMut<N, P, M, R>, MD8, RD8>, MD7, RD7>>::from_stop(Stop::Up(Completed::<PathMut<D8, PathMut<N, P, M, R>, MD8, RD8>>::from_stop(Stop::Up(Completed::<PathMut<N, P, M, R>>::from_stop(Stop::Here(self))))))))))))))))))))
    }

    fn complete(self) -> (r: Completed<PathMut<D0, PathMut<D1, PathMut<D2, PathMut<D3, PathMut<D4, PathMut<D5, PathMut<D6, PathMut<D7, PathMut<D8, PathMut<N, P, M, R>, MD8, RD8>, MD7, RD7>, MD6, RD6>, MD5, RD5>, MD4, RD4>, MD3, RD3>, MD2, RD2>, MD1, RD1>, MD0, RD0>>) {
        Completed::new(Stop::Up(Completed::new(Stop::Up(Completed::new(Stop::Up(Completed::new(Stop::Up(Completed::new(Stop::Up(Completed::new(Stop::Up(Completed::new(Stop::Up(Completed::new(Stop::Up(Completed::new(Stop::Up(Completed::new(Stop::Here(self))))))))))))))))))))
    }
}

impl<'a, R, D0, MD0, RD0, D1, MD1, RD1, D2, MD2, RD2, D3, MD3, RD3, D4, MD4, RD4, D5, MD5, RD5, D6, MD6, RD6, D7, MD7, RD7, D8, MD8, RD8> CompletesTo<PathMut<D0, PathMut<D1, PathMut<D2, PathMut<D3, PathMut<D4, PathMut<D5, PathMut<D6, PathMut<D7, PathMut<D8, &'a mut R, MD8, RD8>, MD7, RD7>, MD6, RD6>, MD5, RD5>, MD4, RD4>, MD3, RD3>, MD2, RD2>, MD1, RD1>, MD0, RD0>> for &'a mut R {
    open spec fn completed_view(self) -> Completed<PathMut<D0, PathMut<D1, PathMut<D2, PathMut<D3, PathMut<D4, PathMut<D5, PathMut<D6, PathMut<D7, PathMut<D8, &'a mut R, MD8, RD8>, MD7, RD7>, MD6, RD6>, MD5, RD5>, MD4, RD4>, MD3, RD3>, MD2, RD2>, MD1, RD1>, MD0, RD0>> {
        Completed::<PathMut<D0, PathMut<D1, PathMut<D2, PathMut<D3, PathMut<D4, PathMut<D5, PathMut<D6, PathMut<D7, PathMut<D8, &'a mut R, MD8, RD8>, MD7, RD7>, MD6, RD6>, MD5, RD5>, MD4, RD4>, MD3, RD3>, MD2, RD2>, MD1, RD1>, MD0, RD0>>::from_stop(Stop::Up(Completed::<PathMut<D1, PathMut<D2, PathMut<D3, PathMut<D4, PathMut<D5, PathMut<D6, PathMut<D7, PathMut<D8, &'a mut R, MD8, RD8>, MD7, RD7>, MD6, RD6>, MD5, RD5>, MD4, RD4>, MD3, RD3>, MD2, RD2>, MD1, RD1>>::from_stop(Stop::Up(Completed::<PathMut<D2, PathMut<D3, PathMut<D4, PathMut<D5, PathMut<D6, PathMut<D7, PathMut<D8, &'a mut R, MD8, RD8>, MD7, RD7>, MD6, RD6>, MD5, RD5>, MD4, RD4>, MD3, RD3>, MD2, RD2>>::from_stop(Stop::Up(Completed::<PathMut<D3, PathMut<D4, PathMut<D5, PathMut<D6, PathMut<D7, PathMut<D8, &'a mut R, MD8, RD8>, MD7, RD7>, MD6, RD6>, MD5, RD5>, MD4, RD4>, MD3, RD3>>::from_stop(Stop::Up(Completed::<PathMut<D4, PathMut<D5, PathMut<D6, PathMut<D7, PathMut<D8, &'a mut R, MD8, RD8>, MD7, RD7>, MD6, RD6>, MD5, RD5>, MD4, RD4>>::from_stop(Stop::Up(Completed::<PathMut<D5, PathMut<D6, PathMut<D7, PathMut<D8, &'a mut R, MD8, RD8>, MD7, RD7>, MD6, RD6>, MD5, RD5>>::from_stop(Stop::Up(Completed::<PathMut<D6, PathMut<D7, PathMut<D8, &'a mut R, MD8, RD8>, MD7, RD7>, MD6, RD6>>::from_stop(Stop::Up(Completed::<PathMut<D7, PathMut<D8, &'a mut R, MD8, RD8>, MD7, RD7>>::from_stop(Stop::Up(Completed::<PathMut<D8, &'a mut R, MD8, RD8>>::from_stop(Stop::Up(self))))))))))))))))))
    }

    fn complete(self) -> (r: Completed<PathMut<D0, PathMut<D1, PathMut<D2, PathMut<D3, PathMut<D4, PathMut<D5, PathMut<D6, PathMut<D7, PathMut<D8, &'a mut R, MD8, RD8>, MD7, RD7>, MD6, RD6>, MD5, RD5>, MD4, RD4>, MD3, RD3>, MD2, RD2>, MD1, RD1>, MD0, RD0>>) {
        Completed::new(Stop::Up(Completed::new(Stop::Up(Completed::new(Stop::Up(Completed::new(Stop::Up(Completed::new(Stop::Up(Completed::new(Stop::Up(Completed::new(Stop::Up(Completed::new(Stop::Up(Completed::new(Stop::Up(self))))))))))))))))))
    }
}

impl<D0, MD0, RD0, D1, MD1, RD1, D2, MD2, RD2, D3, MD3, RD3, D4, MD4, RD4, D5, MD5, RD5, D6, MD6, RD6, D7, MD7, RD7, D8, MD8, RD8, D9, MD9, RD9, N, P: Above, M, R> CompletesTo<PathMut<D0, PathMut<D1, PathMut<D2, PathMut<D3, PathMut<D4, PathMut<D5, PathMut<D6, PathMut<D7, PathMut<D8, PathMut<D9, PathMut<N, P, M, R>, MD9, RD9>, MD8, RD8>, MD7, RD7>, MD6, RD6>, MD5, RD5>, MD4, RD4>, MD3, RD3>, MD2, RD2>, MD1, RD1>, MD0, RD0>> for PathMut<N, P, M, R> {
    open spec fn completed_view(self) -> Completed<PathMut<D0, PathMut<D1, PathMut<D2, PathMut<D3, PathMut<D4, PathMut<D5, PathMut<D6, PathMut<D7, PathMut<D8, PathMut<D9, PathMut<N, P, M, R>, MD9, RD9>, MD8, RD8>, MD7, RD7>, MD6, RD6>, MD5, RD5>, MD4, RD4>, MD3, RD3>, MD2, RD2>, MD1, RD1>, MD0, RD0>> {
        Completed::<PathMut<D0, PathMut<D1, PathMut<D2, PathMut<D3, PathMut<D4, PathMut<D5, PathMut<D6, PathMut<D7, PathMut<D8, PathMut<D9, PathMut<N, P, M, R>, MD9, RD9>, MD8, RD8>, MD7, RD7>, MD6, RD6>, MD5, RD5>, MD4, RD4>, MD3, RD3>, MD2, RD2>, MD1, RD1>, MD0, RD0>>::from_stop(Stop::Up(Completed::<PathMut<D1, PathMut<D2, PathMut<D3, PathMut<D4, PathMut<D5, PathMut<D6, PathMut<D7, PathMut<D8, PathMut<D9, PathMut<N, P, M, R>, MD9, RD9>, MD8, RD8>, MD7, RD7>, MD6, RD6>, MD5, RD5>, MD4, RD4>, MD3, RD3>, MD2, RD2>, MD1, RD1>>::from_stop(Stop::Up(Completed::<PathMut<D2, PathMut<D3, PathMut<D4, PathMut<D5, PathMut<D6, PathMut<D7, PathMut<D8, PathMut<D9, PathMut<N, P, M, R>, MD9, RD9>, MD8, RD8>, MD7, RD7>, MD6, RD6>, MD5, RD5>, MD4, RD4>, MD3, RD3>, MD2, RD2>>::from_stop(Stop::Up(Completed::<PathMut<D3, PathMut<D4, PathMut<D5, PathMut<D6, PathMut<D7, PathMut<D8, PathMut<D9, PathMut<N, P, M, R>, MD9, RD9>, MD8, RD8>, MD7, RD7>, MD6, RD6>, MD5, RD5>, MD4, RD4>, MD3, RD3>>::from_stop(Stop::Up(Completed::<PathMut<D4, PathMut<D5, PathMut<D6, PathMut<D7, PathMut<D8, PathMut<D9, PathMut<N, P, M, R>, MD9, RD9>, MD8, RD8>, MD7, RD7>, MD6, RD6>, MD5, RD5>, MD4, RD4>>::from_stop(Stop::Up(Completed::<PathMut<D5, PathMut<D6, PathMut<D7, PathMut<D8, PathMut<D9, PathMut<N, P, M, R>, MD9, RD9>, MD8, RD8>, MD7, RD7>, MD6, RD6>, MD5, RD5>>::from_stop(Stop::Up(Completed::<PathMut<D6, PathMut<D7, PathMut<D8, PathMut<D9, PathMut<N, P, M, R>, MD9, RD9>, MD8, RD8>, MD7, RD7>, MD6, RD6>>::from_stop(Stop::Up(Completed::<PathMut<D7, PathMut<D8, PathMut<D9, PathMut<N, P, M, R>, MD9, RD9>, MD8, RD8>, MD7, RD7>>::from_stop(Stop::Up(Completed::<PathMut<D8, PathMut<D9, PathMut<N, P, M, R>, MD9, RD9>, MD8, RD8>>::from_stop(Stop::Up(Completed::<PathMut<D9, PathMut<N, P, M, R>, MD9, RD9>>::from_stop(Stop::Up(Completed::<PathMut<N, P, M, R>>::from_stop(Stop::Here(self))))))))))))))))))))))
    }

    fn complete(self) -> (r: Completed<PathMut<D0, PathMut<D1, PathMut<D2, PathMut<D3, PathMut<D4, PathMut<D5, PathMut<D6, PathMut<D7, PathMut<D8, PathMut<D9, PathMut<N, P, M, R>, MD9, RD9>, MD8, RD8>, MD7, RD7>, MD6, RD6>, MD5, RD5>, MD4, RD4>, MD3, RD3>, MD2, RD2>, MD1, RD1>, MD0, RD0>>) {
        Completed::new(Stop::Up(Completed::new(Stop::Up(Completed::new(Stop::Up(Completed::new(Stop::Up(Completed::new(Stop::Up(Completed::new(Stop::Up(Completed::new(Stop::Up(Completed::new(Stop::Up(Completed::new(Stop::Up(Completed::new(Stop::Up(Completed::new(Stop::Here(self))))))))))))))))))))))
    }
}

impl<'a, R, D0, MD0, RD0, D1, MD1, RD1, D2, MD2, RD2, D3, MD3, RD3, D4, MD4, RD4, D5, MD5, RD5, D6, MD6, RD6, D7, MD7, RD7, D8, MD8, RD8, D9, MD9, RD9> CompletesTo<PathMut<D0, PathMut<D1, PathMut<D2, PathMut<D3, PathMut<D4, PathMut<D5, PathMut<D6, PathMut<D7, PathMut<D8, PathMut<D9, &'a mut R, MD9, RD9>, MD8, RD8>, MD7, RD7>, MD6, RD6>, MD5, RD5>, MD4, RD4>, MD3, RD3>, MD2, RD2>, MD1, RD1>, MD0, RD0>> for &'a mut R {
    open spec fn completed_view(self) -> Completed<PathMut<D0, PathMut<D1, PathMut<D2, PathMut<D3, PathMut<D4, PathMut<D5, PathMut<D6, PathMut<D7, PathMut<D8, PathMut<D9, &'a mut R, MD9, RD9>, MD8, RD8>, MD7, RD7>, MD6, RD6>, MD5, RD5>, MD4, RD4>, MD3, RD3>, MD2, RD2>, MD1, RD1>, MD0, RD0>> {
        Completed::<PathMut<D0, PathMut<D1, PathMut<D2, PathMut<D3, PathMut<D4, PathMut<D5, PathMut<D6, PathMut<D7, PathMut<D8, PathMut<D9, &'a mut R, MD9, RD9>, MD8, RD8>, MD7, RD7>, MD6, RD6>, MD5, RD5>, MD4, RD4>, MD3, RD3>, MD2, RD2>, MD1, RD1>, MD0, RD0>>::from_stop(Stop::Up(Completed::<PathMut<D1, PathMut<D2, PathMut<D3, PathMut<D4, PathMut<D5, PathMut<D6, PathMut<D7, PathMut<D8, PathMut<D9, &'a mut R, MD9, RD9>, MD8, RD8>, MD7, RD7>, MD6, RD6>, MD5, RD5>, MD4, RD4>, MD3, RD3>, MD2, RD2>, MD1, RD1>>::from_stop(Stop::Up(Completed::<PathMut<D2, PathMut<D3, PathMut<D4, PathMut<D5, PathMut<D6, PathMut<D7, PathMut<D8, PathMut<D9, &'a mut R, MD9, RD9>, MD8, RD8>, MD7, RD7>, MD6, RD6>, MD5, RD5>, MD4, RD4>, MD3, RD3>, MD2, RD2>>::from_stop(Stop::Up(Completed::<PathMut<D3, PathMut<D4, PathMut<D5, PathMut<D6, PathMut<D7, PathMut<D8, PathMut<D9, &'a mut R, MD9, RD9>, MD8, RD8>, MD7, RD7>, MD6, RD6>, MD5, RD5>, MD4, RD4>, MD3, RD3>>::from_stop(Stop::Up(Completed::<PathMut<D4, PathMut<D5, PathMut<D6, PathMut<D7, PathMut<D8, PathMut<D9, &'a mut R, MD9, RD9>, MD8, RD8>, MD7, RD7>, MD6, RD6>, MD5, RD5>, MD4, RD4>>::from_stop(Stop::Up(Completed::<PathMut<D5, PathMut<D6, PathMut<D7, PathMut<D8, PathMut<D9, &'a mut R, MD9, RD9>, MD8, RD8>, MD7, RD7>, MD6, RD6>, MD5, RD5>>::from_stop(Stop::Up(Completed::<PathMut<D6, PathMut<D7, PathMut<D8, PathMut<D9, &'a mut R, MD9, RD9>, MD8, RD8>, MD7, RD7>, MD6, RD6>>::from_stop(Stop::Up(Completed::<PathMut<D7, PathMut<D8, PathMut<D9, &'a mut R, MD9, RD9>, MD8, RD8>, MD7, RD7>>::from_stop(Stop::Up(Completed::<PathMut<D8, PathMut<D9, &'a mut R, MD9, RD9>, MD8, RD8>>::from_stop(Stop::Up(Completed::<PathMut<D9, &'a mut R, MD9, RD9>>::from_stop(Stop::Up(self))))))))))))))))))))
    }

    fn complete(self) -> (r: Completed<PathMut<D0, PathMut<D1, PathMut<D2, PathMut<D3, PathMut<D4, PathMut<D5, PathMut<D6, PathMut<D7, PathMut<D8, PathMut<D9, &'a mut R, MD9, RD9>, MD8, RD8>, MD7, RD7>, MD6, RD6>, MD5, RD5>, MD4, RD4>, MD3, RD3>, MD2, RD2>, MD1, RD1>, MD0, RD0>>) {
        Completed::new(Stop::Up(Completed::new(Stop::Up(Completed::new(Stop::Up(Completed::new(Stop::Up(Completed::new(Stop::Up(Completed::new(Stop::Up(Completed::new(Stop::Up(Completed::new(Stop::Up(Completed::new(Stop::Up(Completed::new(Stop::Up(self))))))))))))))))))))
    }
}

impl<D0, MD0, RD0, D1, MD1, RD1, D2, MD2, RD2, D3, MD3, RD3, D4, MD4, RD4, D5, MD5, RD5, D6, MD6, RD6, D7, MD7, RD7, D8, MD8, RD8, D9, MD9, RD9, D10, MD10, RD10, N, P: Above, M, R> CompletesTo<PathMut<D0, PathMut<D1, PathMut<D2, PathMut<D3, PathMut<D4, PathMut<D5, PathMut<D6, PathMut<D7, PathMut<D8, PathMut<D9, PathMut<D10, PathMut<N, P, M, R>, MD10, RD10>, MD9, RD9>, MD8, RD8>, MD7, RD7>, MD6, RD6>, MD5, RD5>, MD4, RD4>, MD3, RD3>, MD2, RD2>, MD1, RD1>, MD0, RD0>> for PathMut<N, P, M, R> {
    open spec fn completed_view(self) -> Completed<PathMut<D0, PathMut<D1, PathMut<D2, PathMut<D3, PathMut<D4, PathMut<D5, PathMut<D6, PathMut<D7, PathMut<D8, PathMut<D9, PathMut<D10, PathMut<N, P, M, R>, MD10, RD10>, MD9, RD9>, MD8, RD8>, MD7, RD7>, MD6, RD6>, MD5, RD5>, MD4, RD4>, MD3, RD3>, MD2, RD2>, MD1, RD1>, MD0, RD0>> {
        Completed::<PathMut<D0, PathMut<D1, PathMut<D2, PathMut<D3, PathMut<D4, PathMut<D5, PathMut<D6, PathMut<D7, PathMut<D8, PathMut<D9, PathMut<D10, PathMut<N, P, M, R>, MD10, RD10>, MD9, RD9>, MD8, RD8>, MD7, RD7>, MD6, RD6>, MD5, RD5>, MD4, RD4>, MD3, RD3>, MD2, RD2>, MD1, RD1>, MD0, RD0>>::from_stop(Stop::Up(Completed::<PathMut<D1, PathMut<D2, PathMut<D3, PathMut<D4, PathMut<D5, PathMut<D6, PathMut<D7, PathMut<D8, PathMut<D9, PathMut<D10, PathMut<N, P, M, R>, MD10, RD10>, MD9, RD9>, MD8, RD8>, MD7, RD7>, MD6, RD6>, MD5, RD5>, MD4, RD4>, MD3, RD3>, MD2, RD2>, MD1, RD1>>::from_stop(Stop::Up(Completed::<PathMut<D2, PathMut<D3, PathMut<D4, PathMut<D5, PathMut<D6, PathMut<D7, PathMut<D8, PathMut<D9, PathMut<D10, PathMut<N, P, M, R>, MD10, RD10>, MD9, RD9>, MD8, RD8>, MD7, RD7>, MD6, RD6>, MD5, RD5>, MD4, RD4>, MD3, RD3>, MD2, RD2>>::from_stop(Stop::Up(Completed::<PathMut<D3, PathMut<D4, PathMut<D5, PathMut<D6, PathMut<D7, PathMut<D8, PathMut<D9, PathMut<D10, PathMut<N, P, M, R>, MD10, RD10>, MD9, RD9>, MD8, RD8>, MD7, RD7>, MD6, RD6>, MD5, RD5>, MD4, RD4>, MD3, RD3>>::from_stop(Stop::Up(Completed::<PathMut<D4, PathMut<D5, PathMut<D6, PathMut<D7, PathMut<D8, PathMut<D9, PathMut<D10, PathMut<N, P, M, R>, MD10, RD10>, MD9, RD9>, MD8, RD8>, MD7, RD7>, MD6, RD6>, MD5, RD5>, MD4, RD4>>::from_stop(Stop::Up(Completed::<PathMut<D5, PathMut<D6, PathMut<D7, PathMut<D8, PathMut<D9, PathMut<D10, PathMut<N, P, M, R>, MD10, RD10>, MD9, RD9>, MD8, RD8>, MD7, RD7>, MD6, RD6>, MD5, RD5>>::from_stop(Stop::Up(Completed::<PathMut<D6, PathMut<D7, PathMut<D8, PathMut<D9, PathMut<D10, PathMut<N, P, M, R>, MD10, RD10>, MD9, RD9>, MD8, RD8>, MD7, RD7>, MD6, RD6>>::from_stop(Stop::Up(Completed::<PathMut<D7, PathMut<D8, PathMut<D9, PathMut<D10, PathMut<N, P, M, R>, MD10, RD10>, MD9, RD9>, MD8, RD8>, MD7, RD7>>::from_stop(Stop::Up(Completed::<PathMut<D8, PathMut<D9, PathMut<D10, PathMut<N, P, M, R>, MD10, RD10>, MD9, RD9>, MD8, RD8>>::from_stop(Stop::Up(Completed::<PathMut<D9, PathMut<D10, PathMut<N, P, M, R>, MD10, RD10>, MD9, RD9>>::from_stop(Stop::Up(Completed::<PathMut<D10, PathMut<N, P, M, R>, MD10, RD10>>::from_stop(Stop::Up(Completed::<PathMut<N, P, M, R>>::from_stop(Stop::Here(self))))))))))))))))))))))))
    }

    fn complete(self) -> (r: Completed<PathMut<D0, PathMut<D1, PathMut<D2, PathMut<D3, PathMut<D4, PathMut<D5, PathMut<D6, PathMut<D7, PathMut<D8, PathMut<D9, PathMut<D10, PathMut<N, P, M, R>, MD10, RD10>, MD9, RD9>, MD8, RD8>, MD7, RD7>, MD6, RD6>, MD5, RD5>, MD4, RD4>, MD3, RD3>, MD2, RD2>, MD1, RD1>, MD0, RD0>>) {
        Completed::new(Stop::Up(Completed::new(Stop::Up(Completed::new(Stop::Up(Completed::new(Stop::Up(Completed::new(Stop::Up(Completed::new(Stop::Up(Completed::new(Stop::Up(Completed::new(Stop::Up(Completed::new(Stop::Up(Completed::new(Stop::Up(Completed::new(Stop::Up(Completed::new(Stop::Here(self))))))))))))))))))))))))
    }
}

impl<'a, R, D0, MD0, RD0, D1, MD1, RD1, D2, MD2, RD2, D3, MD3, RD3, D4, MD4, RD4, D5, MD5, RD5, D6, MD6, RD6, D7, MD7, RD7, D8, MD8, RD8, D9, MD9, RD9, D10, MD10, RD10> CompletesTo<PathMut<D0, PathMut<D1, PathMut<D2, PathMut<D3, PathMut<D4, PathMut<D5, PathMut<D6, PathMut<D7, PathMut<D8, PathMut<D9, PathMut<D10, &'a mut R, MD10, RD10>, MD9, RD9>, MD8, RD8>, MD7, RD7>, MD6, RD6>, MD5, RD5>, MD4, RD4>, MD3, RD3>, MD2, RD2>, MD1, RD1>, MD0, RD0>> for &'a mut R {
    open spec fn completed_view(self) -> Completed<PathMut<D0, PathMut<D1, PathMut<D2, PathMut<D3, PathMut<D4, PathMut<D5, PathMut<D6, PathMut<D7, PathMut<D8, PathMut<D9, PathMut<D10, &'a mut R, MD10, RD10>, MD9, RD9>, MD8, RD8>, MD7, RD7>, MD6, RD6>, MD5, RD5>, MD4, RD4>, MD3, RD3>, MD2, RD2>, MD1, RD1>, MD0, RD0>> {
        Completed::<PathMut<D0, PathMut<D1, PathMut<D2, PathMut<D3, PathMut<D4, PathMut<D5, PathMut<D6, PathMut<D7, PathMut<D8, PathMut<D9, PathMut<D10, &'a mut R, MD10, RD10>, MD9, RD9>, MD8, RD8>, MD7, RD7>, MD6, RD6>, MD5, RD5>, MD4, RD4>, MD3, RD3>, MD2, RD2>, MD1, RD1>, MD0, RD0>>::from_stop(Stop::Up(Completed::<PathMut<D1, PathMut<D2, PathMut<D3, PathMut<D4, PathMut<D5, PathMut<D6, PathMut<D7, PathMut<D8, PathMut<D9, PathMut<D10, &'a mut R, MD10, RD10>, MD9, RD9>, MD8, RD8>, MD7, RD7>, MD6, RD6>, MD5, RD5>, MD4, RD4>, MD3, RD3>, MD2, RD2>, MD1, RD1>>::from_stop(Stop::Up(Completed::<PathMut<D2, PathMut<D3, PathMut<D4, PathMut<D5, PathMut<D6, PathMut<D7, PathMut<D8, PathMut<D9, PathMut<D10, &'a mut R, MD10, RD10>, MD9, RD9>, MD8, RD8>, MD7, RD7>, MD6, RD6>, MD5, RD5>, MD4, RD4>, MD3, RD3>, MD2, RD2>>::from_stop(Stop::Up(Completed::<PathMut<D3, PathMut<D4, PathMut<D5, PathMut<D6, PathMut<D7, PathMut<D8, PathMut<D9, PathMut<D10, &'a mut R, MD10, RD10>, MD9, RD9>, MD8, RD8>, MD7, RD7>, MD6, RD6>, MD5, RD5>, MD4, RD4>, MD3, RD3>>::from_stop(Stop::Up(Completed::<PathMut<D4, PathMut<D5, PathMut<D6, PathMut<D7, PathMut<D8, PathMut<D9, PathMut<D10, &'a mut R, MD10, RD10>, MD9, RD9>, MD8, RD8>, MD7, RD7>, MD6, RD6>, MD5, RD5>, MD4, RD4>>::from_stop(Stop::Up(Completed::<PathMut<D5, PathMut<D6, PathMut<D7, PathMut<D8, PathMut<D9, PathMut<D10, &'a mut R, MD10, RD10>, MD9, RD9>, MD8, RD8>, MD7, RD7>, MD6, RD6>, MD5, RD5>>::from_stop(Stop::Up(Completed::<PathMut<D6, PathMut<D7, PathMut<D8, PathMut<D9, PathMut<D10, &'a mut R, MD10, RD10>, MD9, RD9>, MD8, RD8>, MD7, RD7>, MD6, RD6>>::from_stop(Stop::Up(Completed::<PathMut<D7, PathMut<D8, PathMut<D9, PathMut<D10, &'a mut R, MD10, RD10>, MD9, RD9>, MD8, RD8>, MD7, RD7>>::from_stop(Stop::Up(Completed::<PathMut<D8, PathMut<D9, PathMut<D10, &'a mut R, MD10, RD10>, MD9, RD9>, MD8, RD8>>::from_stop(Stop::Up(Completed::<PathMut<D9, PathMut<D10, &'a mut R, MD10, RD10>, MD9, RD9>>::from_stop(Stop::Up(Completed::<PathMut<D10, &'a mut R, MD10, RD10>>::from_stop(Stop::Up(self))))))))))))))))))))))
    }

    fn complete(self) -> (r: Completed<PathMut<D0, PathMut<D1, PathMut<D2, PathMut<D3, PathMut<D4, PathMut<D5, PathMut<D6, PathMut<D7, PathMut<D8, PathMut<D9, PathMut<D10, &'a mut R, MD10, RD10>, MD9, RD9>, MD8, RD8>, MD7, RD7>, MD6, RD6>, MD5, RD5>, MD4, RD4>, MD3, RD3>, MD2, RD2>, MD1, RD1>, MD0, RD0>>) {
        Completed::new(Stop::Up(Completed::new(Stop::Up(Completed::new(Stop::Up(Completed::new(Stop::Up(Completed::new(Stop::Up(Completed::new(Stop::Up(Completed::new(Stop::Up(Completed::new(Stop::Up(Completed::new(Stop::Up(Completed::new(Stop::Up(Completed::new(Stop::Up(self))))))))))))))))))))))
    }
}

impl<D0, MD0, RD0, D1, MD1, RD1, D2, MD2, RD2, D3, MD3, RD3, D4, MD4, RD4, D5, MD5, RD5, D6, MD6, RD6, D7, MD7, RD7, D8, MD8, RD8, D9, MD9, RD9, D10, MD10, RD10, D11, MD11, RD11, N, P: Above, M, R> CompletesTo<PathMut<D0, PathMut<D1, PathMut<D2, PathMut<D3, PathMut<D4, PathMut<D5, PathMut<D6, PathMut<D7, PathMut<D8, PathMut<D9, PathMut<D10, PathMut<D11, PathMut<N, P, M, R>, MD11, RD11>, MD10, RD10>, MD9, RD9>, MD8, RD8>, MD7, RD7>, MD6, RD6>, MD5, RD5>, MD4, RD4>, MD3, RD3>, MD2, RD2>, MD1, RD1>, MD0, RD0>> for PathMut<N, P, M, R> {
    open spec fn completed_view(self) -> Completed<PathMut<D0, PathMut<D1, PathMut<D2, PathMut<D3, PathMut<D4, PathMut<D5, PathMut<D6, PathMut<D7, PathMut<D8, PathMut<D9, PathMut<D10, PathMut<D11, PathMut<N, P, M, R>, MD11, RD11>, MD10, RD10>, MD9, RD9>, MD8, RD8>, MD7, RD7>, MD6, RD6>, MD5, RD5>, MD4, RD4>, MD3, RD3>, MD2, RD2>, MD1, RD1>, MD0, RD0>> {
        Completed::<PathMut<D0, PathMut<D1, PathMut<D2, PathMut<D3, PathMut<D4, PathMut<D5, PathMut<D6, PathMut<D7, PathMut<D8, PathMut<D9, PathMut<D10, PathMut<D11, PathMut<N, P, M, R>, MD11, RD11>, MD10, RD10>, MD9, RD9>, MD8, RD8>, MD7, RD7>, MD6, RD6>, MD5, RD5>, MD4, RD4>, MD3, RD3>, MD2, RD2>, MD1, RD1>, MD0, RD0>>::from_stop(Stop::Up(Completed::<PathMut<D1, PathMut<D2, PathMut<D3, PathMut<D4, PathMut<D5, PathMut<D6, PathMut<D7, PathMut<D8, PathMut<D9, PathMut<D10, PathMut<D11, PathMut<N, P, M, R>, MD11, RD11>, MD10, RD10>, MD9, RD9>, MD8, RD8>, MD7, RD7>, MD6, RD6>, MD5, RD5>, MD4, RD4>, MD3, RD3>, MD2, RD2>, MD1, RD1>>::from_stop(Stop::Up(Completed::<PathMut<D2, PathMut<D3, PathMut<D4, PathMut<D5, PathMut<D6, PathMut<D7, PathMut<D8, PathMut<D9, PathMut<D10, PathMut<D11, PathMut<N, P, M, R>, MD11, RD11>, MD10, RD10>, MD9, RD9>, MD8, RD8>, MD7, RD7>, MD6, RD6>, MD5, RD5>, MD4, RD4>, MD3, RD3>, MD2, RD2>>::from_stop(Stop::Up(Completed::<PathMut<D3, PathMut<D4, PathMut<D5, PathMut<D6, PathMut<D7, PathMut<D8, PathMut<D9, PathMut<D10, PathMut<D11, PathMut<N, P, M, R>, MD11, RD11>, MD10, RD10>, MD9, RD9>, MD8, RD8>, MD7, RD7>, MD6, RD6>, MD5, RD5>, MD4, RD4>, MD3, RD3>>::from_stop(Stop::Up(Completed::<PathMut<D4, PathMut<D5, PathMut<D6, PathMut<D7, PathMut<D8, PathMut<D9, PathMut<D10, PathMut<D11, PathMut<N, P, M, R>, MD11, RD11>, MD10, RD10>, MD9, RD9>, MD8, RD8>, MD7, RD7>, MD6, RD6>, MD5, RD5>, MD4, RD4>>::from_stop(Stop::Up(Completed::<PathMut<D5, PathMut<D6, PathMut<D7, PathMut<D8, PathMut<D9, PathMut<D10, PathMut<D11, PathMut<N, P, M, R>, MD11, RD11>, MD10, RD10>, MD9, RD9>, MD8, RD8>, MD7, RD7>, MD6, RD6>, MD5, RD5>>::from_stop(Stop::Up(Completed::<PathMut<D6, PathMut<D7, PathMut<D8, PathMut<D9, PathMut<D10, PathMut<D11, PathMut<N, P, M, R>, MD11, RD11>, MD10, RD10>, MD9, RD9>, MD8, RD8>, MD7, RD7>, MD6, RD6>>::from_stop(Stop::Up(Completed::<PathMut<D7, PathMut<D8, PathMut<D9, PathMut<D10, PathMut<D11, PathMut<N, P, M, R>, MD11, RD11>, MD10, RD10>, MD9, RD9>, MD8, RD8>, MD7, RD7>>::from_stop(Stop::Up(Completed::<PathMut<D8, PathMut<D9, PathMut<D10, PathMut<D11, PathMut<N, P, M, R>, MD11, RD11>, MD10, RD10>, MD9, RD9>, MD8, RD8>>::from_stop(Stop::Up(Completed::<PathMut<D9, PathMut<D10, PathMut<D11, PathMut<N, P, M, R>, MD11, RD11>, MD10, RD10>, MD9, RD9>>::from_stop(Stop::Up(Completed::<PathMut<D10, PathMut<D11, PathMut<N, P, M, R>, MD11, RD11>, MD10, RD10>>::from_stop(Stop::Up(Completed::<PathMut<D11, PathMut<N, P, M, R>, MD11, RD11>>::from_stop(Stop::Up(Completed::<PathMut<N, P, M, R>>::from_stop(Stop::Here(self))))))))))))))))))))))))))
    }

    fn complete(self) -> (r: Completed<PathMut<D0, PathMut<D1, PathMut<D2, PathMut<D3, PathMut<D4, PathMut<D5, PathMut<D6, PathMut<D7, PathMut<D8, PathMut<D9, PathMut<D10, PathMut<D11, PathMut<N, P, M, R>, MD11, RD11>, MD10, RD10>, MD9, RD9>, MD8, RD8>, MD7, RD7>, MD6, RD6>, MD5, RD5>, MD4, RD4>, MD3, RD3>, MD2, RD2>, MD1, RD1>, MD0, RD0>>) {
        Completed::new(Stop::Up(Completed::new(Stop::Up(Completed::new(Stop::Up(Completed::new(Stop::Up(Completed::new(Stop::Up(Completed::new(Stop::Up(Completed::new(Stop::Up(Completed::new(Stop::Up(Completed::new(Stop::Up(Completed::new(Stop::Up(Completed::new(Stop::Up(Completed::new(Stop::Up(Completed::new(Stop::Here(self))))))))))))))))))))))))))
    }
}

impl<'a, R, D0, MD0, RD0, D1, MD1, RD1, D2, MD2, RD2, D3, MD3, RD3, D4, MD4, RD4, D5, MD5, RD5, D6, MD6, RD6, D7, MD7, RD7, D8, MD8, RD8, D9, MD9, RD9, D10, MD10, RD10, D11, MD11, RD11> CompletesTo<PathMut<D0, PathMut<D1, PathMut<D2, PathMut<D3, PathMut<D4, PathMut<D5, PathMut<D6, PathMut<D7, PathMut<D8, PathMut<D9, PathMut<D10, PathMut<D11, &'a mut R, MD11, RD11>, MD10, RD10>, MD9, RD9>, MD8, RD8>, MD7, RD7>, MD6, RD6>, MD5, RD5>, MD4, RD4>, MD3, RD3>, MD2, RD2>, MD1, RD1>, MD0, RD0>> for &'a mut R {
    open spec fn completed_view(self) -> Completed<PathMut<D0, PathMut<D1, PathMut<D2, PathMut<D3, PathMut<D4, PathMut<D5, PathMut<D6, PathMut<D7, PathMut<D8, PathMut<D9, PathMut<D10, PathMut<D11, &'a mut R, MD11, RD11>, MD10, RD10>, MD9, RD9>, MD8, RD8>, MD7, RD7>, MD6, RD6>, MD5, RD5>, MD4, RD4>, MD3, RD3>, MD2, RD2>, MD1, RD1>, MD0, RD0>> {
        Completed::<PathMut<D0, PathMut<D1, PathMut<D2, PathMut<D3, PathMut<D4, PathMut<D5, PathMut<D6, PathMut<D7, PathMut<D8, PathMut<D9, PathMut<D10, PathMut<D11, &'a mut R, MD11, RD11>, MD10, RD10>, MD9, RD9>, MD8, RD8>, MD7, RD7>, MD6, RD6>, MD5, RD5>, MD4, RD4>, MD3, RD3>, MD2, RD2>, MD1, RD1>, MD0, RD0>>::from_stop(Stop::Up(Completed::<PathMut<D1, PathMut<D2, PathMut<D3, PathMut<D4, PathMut<D5, PathMut<D6, PathMut<D7, PathMut<D8, PathMut<D9, PathMut<D10, PathMut<D11, &'a mut R, MD11, RD11>, MD10, RD10>, MD9, RD9>, MD8, RD8>, MD7, RD7>, MD6, RD6>, MD5, RD5>, MD4, RD4>, MD3, RD3>, MD2, RD2>, MD1, RD1>>::from_stop(Stop::Up(Completed::<PathMut<D2, PathMut<D3, PathMut<D4, PathMut<D5, PathMut<D6, PathMut<D7, PathMut<D8, PathMut<D9, PathMut<D10, PathMut<D11, &'a mut R, MD11, RD11>, MD10, RD10>, MD9, RD9>, MD8, RD8>, MD7, RD7>, MD6, RD6>, MD5, RD5>, MD4, RD4>, MD3, RD3>, MD2, RD2>>::from_stop(Stop::Up(Completed::<PathMut<D3, PathMut<D4, PathMut<D5, PathMut<D6, PathMut<D7, PathMut<D8, PathMut<D9, PathMut<D10, PathMut<D11, &'a mut R, MD11, RD11>, MD10, RD10>, MD9, RD9>, MD8, RD8>, MD7, RD7>, MD6, RD6>, MD5, RD5>, MD4, RD4>, MD3, RD3>>::from_stop(Stop::Up(Completed::<PathMut<D4, PathMut<D5, PathMut<D6, PathMut<D7, PathMut<D8, PathMut<D9, PathMut<D10, PathMut<D11, &'a mut R, MD11, RD11>, MD10, RD10>, MD9, RD9>, MD8, RD8>, MD7, RD7>, MD6, RD6>, MD5, RD5>, MD4, RD4>>::from_stop(Stop::Up(Completed::<PathMut<D5, PathMut<D6, PathMut<D7, PathMut<D8, PathMut<D9, PathMut<D10, PathMut<D11, &'a mut R, MD11, RD11>, MD10, RD10>, MD9, RD9>, MD8, RD8>, MD7, RD7>, MD6, RD6>, MD5, RD5>>::from_stop(Stop::Up(Completed::<PathMut<D6, PathMut<D7, PathMut<D8, PathMut<D9, PathMut<D10, PathMut<D11, &'a mut R, MD11, RD11>, MD10, RD10>, MD9, RD9>, MD8, RD8>, MD7, RD7>, MD6, RD6>>::from_stop(Stop::Up(Completed::<PathMut<D7, PathMut<D8, PathMut<D9, PathMut<D10, PathMut<D11, &'a mut R, MD11, RD11>, MD10, RD10>, MD9, RD9>, MD8, RD8>, MD7, RD7>>::from_stop(Stop::Up(Completed::<PathMut<D8, PathMut<D9, PathMut<D10, PathMut<D11, &'a mut R, MD11, RD11>, MD10, RD10>, MD9, RD9>, MD8, RD8>>::from_stop(Stop::Up(Completed::<PathMut<D9, PathMut<D10, PathMut<D11, &'a mut R, MD11, RD11>, MD10, RD10>, MD9, RD9>>::from_stop(Stop::Up(Completed::<PathMut<D10, PathMut<D11, &'a mut R, MD11, RD11>, MD10, RD10>>::from_stop(Stop::Up(Completed::<PathMut<D11, &'a mut R, MD11, RD11>>::from_stop(Stop::Up(self))))))))))))))))))))))))
    }

    fn complete(self) -> (r: Completed<PathMut<D0, PathMut<D1, PathMut<D2, PathMut<D3, PathMut<D4, PathMut<D5, PathMut<D6, PathMut<D7, PathMut<D8, PathMut<D9, PathMut<D10, PathMut<D11, &'a mut R, MD11, RD11>, MD10, RD10>, MD9, RD9>, MD8, RD8>, MD7, RD7>, MD6, RD6>, MD5, RD5>, MD4, RD4>, MD3, RD3>, MD2, RD2>, MD1, RD1>, MD0, RD0>>) {
        Completed::new(Stop::Up(Completed::new(Stop::Up(Completed::new(Stop::Up(Completed::new(Stop::Up(Completed::new(Stop::Up(Completed::new(Stop::Up(Completed::new(Stop::Up(Completed::new(Stop::Up(Completed::new(Stop::Up(Completed::new(Stop::Up(Completed::new(Stop::Up(Completed::new(Stop::Up(self))))))))))))))))))))))))
    }
}

/// A path completed where it stands reopens to that same standing path.
pub proof fn law_a_leave_stopped_here_reopens_to_its_path<N, P: Above, M, R>(path: PathMut<N, P, M, R>)
    ensures
        <PathMut<N, P, M, R> as HasStop>::reopen(
            <PathMut<N, P, M, R> as CompletesTo<PathMut<N, P, M, R>>>::completed_view(path),
        ) == MaybeInvalidated::NotInvalidated(path),
{
}

/// Any leave that stopped at a path, however it was built, reopens to that path.
pub proof fn law_a_leave_reopens_to_where_it_stopped<N, P: Above, M, R>(
    completed: Completed<PathMut<N, P, M, R>>,
    path: PathMut<N, P, M, R>,
)
    requires
        completed.stop_view() == Stop::<PathMut<N, P, M, R>, P::Up>::Here(path),
    ensures
        <PathMut<N, P, M, R> as HasStop>::reopen(completed) == MaybeInvalidated::NotInvalidated(path),
{
}

/// A leave holds the root wherever it stopped: stopped at a path, it holds that path's root;
/// peeled a level, it holds the root of the leave it wraps; a leave from the root is the root.
/// Applied level by level, a leave at any depth reaches the root of the path it came from.
pub proof fn law_a_leave_holds_the_root_wherever_it_stopped<'a, R, N, P: Above, M, Q>(
    completed: Completed<PathMut<N, P, M, Q>>,
    root: &'a mut R,
)
    where
        PathMut<N, P, M, Q>: HasAncestor<&'a mut R>,
        P::Up: HasAncestor<&'a mut R>,
    ensures
        completed.stop_view() matches Stop::Here(path) ==> <Completed<PathMut<N, P, M, Q>> as HasAncestor<&'a mut R>>::ancestor_view(&completed)
            == path.ancestor_view(),
        completed.stop_view() matches Stop::Up(rest) ==> <Completed<PathMut<N, P, M, Q>> as HasAncestor<&'a mut R>>::ancestor_view(&completed)
            == rest.ancestor_view(),
        <Completed<&'a mut R> as HasAncestor<&'a mut R>>::ancestor_view(&Completed::<&'a mut R>::from_stop(root)) == root,
{
}

/// A leave that went above its origin reopens to itself: the origin stays invalidated.
pub proof fn law_a_leave_from_above_stays_a_leave<N, P: Above, M, R>(completed: Completed<PathMut<N, P, M, R>>)
    requires
        completed.stop_view() is Up,
    ensures
        <PathMut<N, P, M, R> as HasStop>::reopen(completed) == MaybeInvalidated::<PathMut<N, P, M, R>>::Invalidated(completed),
{
}

/// The root's own leave never invalidates it: it reopens to the root.
pub proof fn law_a_leave_from_the_root_never_invalidates_it<'a, R>(root: &'a mut R)
    ensures
        <&'a mut R as HasStop>::reopen(Completed::<&'a mut R>::from_stop(root))
            == MaybeInvalidated::<&'a mut R>::NotInvalidated(root),
{
}

/// A leave reaches its own origin back exactly when it stopped there.
pub proof fn law_try_at_distance_zero<N, P: Above, M, R>(completed: Completed<PathMut<N, P, M, R>>)
    ensures
        <Completed<PathMut<N, P, M, R>> as TryIntoAncestor<PathMut<N, P, M, R>>>::try_view(completed) is Ok
            <==> completed.stop_view() is Here,
{
}

/// From a child of the root, and from a grandchild, a walk to the root always succeeds.
pub proof fn law_try_to_the_root_always_succeeds<'a, R, H, M, Q, G, MG, QG>(
    child: Completed<PathMut<H, &'a mut R, M, Q>>,
    grandchild: Completed<PathMut<G, PathMut<H, &'a mut R, M, Q>, MG, QG>>,
)
    ensures
        <Completed<PathMut<H, &'a mut R, M, Q>> as TryIntoAncestor<&'a mut R>>::try_view(child) is Ok,
        <Completed<PathMut<G, PathMut<H, &'a mut R, M, Q>, MG, QG>> as TryIntoAncestor<&'a mut R>>::try_view(grandchild) is Ok,
{
}

/// Two levels below the root, every leave holds the root the path stood on: one completed
/// where the path stands, one from its parent, and one from the root itself.
pub proof fn law_leaves_two_below_the_root_hold_it<'a, R, H, M, Q, G, MG, QG>(
    path: PathMut<G, PathMut<H, &'a mut R, M, Q>, MG, QG>,
)
    ensures
        <Completed<PathMut<G, PathMut<H, &'a mut R, M, Q>, MG, QG>> as HasAncestor<&'a mut R>>::ancestor_view(
            &<PathMut<G, PathMut<H, &'a mut R, M, Q>, MG, QG> as CompletesTo<PathMut<G, PathMut<H, &'a mut R, M, Q>, MG, QG>>>::completed_view(path),
        ) == path.parent_view().parent_view(),
        <Completed<PathMut<G, PathMut<H, &'a mut R, M, Q>, MG, QG>> as HasAncestor<&'a mut R>>::ancestor_view(
            &<PathMut<H, &'a mut R, M, Q> as CompletesTo<PathMut<G, PathMut<H, &'a mut R, M, Q>, MG, QG>>>::completed_view(path.parent_view()),
        ) == path.parent_view().parent_view(),
        <Completed<PathMut<G, PathMut<H, &'a mut R, M, Q>, MG, QG>> as HasAncestor<&'a mut R>>::ancestor_view(
            &<&'a mut R as CompletesTo<PathMut<G, PathMut<H, &'a mut R, M, Q>, MG, QG>>>::completed_view(path.parent_view().parent_view()),
        ) == path.parent_view().parent_view(),
{
}

/// A parent that rebuilds its leave with `up` from what it unwrapped gets the same leave back.
pub proof fn law_up_undoes_unwrapping<N, P: Above, M, R>(completed: Completed<PathMut<N, P, M, R>>)
    ensures
        completed.stop_view() matches Stop::Up(above) ==> completed
            == Completed::<PathMut<N, P, M, R>>::from_stop(Stop::Up(above)),
{
}

} // verus!
