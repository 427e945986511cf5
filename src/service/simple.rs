use super::{notify_callbacks, swept, SwitchRouteService};
use crate::listener::{AsListener, Listener};
use crate::route::SwitchRoute;
use vstd::prelude::*;
use vstd::std_specs::cmp::PartialEqSpec;
use vstd::std_specs::convert::IntoSpec;

verus! {

/// Tells whether a push moved the history to a new entry.
pub type RouteChanged = bool;

/// A stack of routes with a pointer at the current one. Entries past the
/// pointer form the forward branch.
pub struct History<R> {
    stack: Vec<R>,
    history_pointer: usize,
}

impl<R> History<R> {
    /// The entries, oldest first.
    pub closed spec fn entries(&self) -> Seq<R> {
        self.stack@
    }

    /// The position of the current entry.
    pub closed spec fn pointer(&self) -> int {
        self.history_pointer as int
    }

    /// The stack is never empty and the pointer names one of its entries.
    pub open spec fn inv(&self) -> bool {
        0 <= self.pointer() < self.entries().len()
    }

    pub open spec fn current(&self) -> R {
        self.entries()[self.pointer()]
    }

    /// What a push does once it has decided that the route is new: the
    /// forward branch goes, the route is appended and becomes current.
    pub open spec fn pushed(pre: Self, route: R, post: Self) -> bool {
        &&& post.entries() == pre.entries().take(pre.pointer() + 1).push(route)
        &&& post.pointer() == pre.pointer() + 1
    }

    /// Both states hold the same entries and the same pointer.
    pub open spec fn same(a: Self, b: Self) -> bool {
        a.entries() == b.entries() && a.pointer() == b.pointer()
    }

    /// The full effect of `push(route)` returning `changed`.
    pub open spec fn push_result(pre: Self, route: R, post: Self, changed: bool) -> bool
        where R: PartialEq
    {
        &&& R::obeys_eq_spec() ==> (changed <==> !pre.current().eq_spec(&route))
        &&& changed ==> Self::pushed(pre, route, post)
        &&& !changed ==> Self::same(pre, post)
    }

    /// The full effect of `replace_current(route)` returning `removed`.
    pub open spec fn replace_result(pre: Self, route: R, post: Self, removed: R) -> bool {
        &&& post.entries() == pre.entries().update(pre.pointer(), route)
        &&& post.pointer() == pre.pointer()
        &&& removed == pre.current()
    }

    /// The state part of `back()`: one step towards the oldest entry, or
    /// nothing at all when the pointer is already there.
    pub open spec fn back_result(pre: Self, post: Self) -> bool {
        &&& post.entries() == pre.entries()
        &&& pre.pointer() > 0 ==> post.pointer() == pre.pointer() - 1
        &&& pre.pointer() == 0 ==> post.pointer() == 0
    }
}

impl<R: SwitchRoute> History<R> {
    pub fn new(initial_route: R) -> (h: Self)
        ensures
            h.inv(),
            h.entries() == seq![initial_route],
            h.pointer() == 0,
    {
        let mut stack: Vec<R> = Vec::new();
        stack.push(initial_route);
        History { stack, history_pointer: 0 }
    }

    /// Appends `route` and makes it current, discarding the forward branch,
    /// unless it equals the current route.
    pub fn push(&mut self, route: R) -> (changed: RouteChanged)
        requires
            old(self).inv(),
        ensures
            final(self).inv(),
            Self::push_result(*old(self), route, *final(self), changed),
    {
        let p = self.history_pointer;
        let same = self.stack[p] == route;
        if !same {
            if p < self.stack.len() - 1 {
                self.stack.truncate(p + 1);
            }
            self.stack.push(route);
            self.history_pointer = p + 1;
            proof {
                assert(self.stack@ =~= old(self).stack@.take(p + 1).push(route));
            }
            true
        } else {
            false
        }
    }

    /// A copy of the current route.
    pub fn get_current(&self) -> (r: R)
        requires
            self.inv(),
        ensures
            cloned(self.current(), r),
    {
        self.stack[self.history_pointer].clone()
    }

    /// Puts `route` in place of the current entry and returns the entry it
    /// replaced; the length and the pointer stay.
    pub fn replace_current(&mut self, route: R) -> (removed: R)
        requires
            old(self).inv(),
        ensures
            final(self).inv(),
            Self::replace_result(*old(self), route, *final(self), removed),
    {
        let p = self.history_pointer;
        let removed = self.stack.remove(p);
        self.stack.insert(p, route);
        proof {
            assert(self.stack@ =~= old(self).stack@.update(p as int, route));
        }
        removed
    }

    /// Steps back one entry and returns a copy of the new current route, or
    /// returns `None` at the oldest entry.
    pub fn back(&mut self) -> (r: Option<R>)
        requires
            old(self).inv(),
        ensures
            final(self).inv(),
            Self::back_result(*old(self), *final(self)),
            old(self).pointer() == 0 <==> r is None,
            r matches Some(c) ==> cloned(final(self).current(), c),
    {
        if self.history_pointer > 0 {
            self.history_pointer = self.history_pointer - 1;
            Some(self.get_current())
        } else {
            None
        }
    }
}


/// A route service over an in-memory `History`. It keeps, as a ghost log,
/// the route of every notify pass it has made.
#[verifier::reject_recursive_types(R)]
pub struct SimpleRouteService<R> {
    history: History<R>,
    listeners: Vec<Listener<R>>,
    announced: Ghost<Seq<R>>,
}

impl<R> SimpleRouteService<R> {
    pub closed spec fn history(&self) -> History<R> {
        self.history
    }

    /// The registered handles, in registration order.
    pub closed spec fn listeners(&self) -> Seq<Listener<R>> {
        self.listeners@
    }

    /// The route handed to each notify pass so far, oldest first.
    pub closed spec fn announced(&self) -> Seq<R> {
        self.announced@
    }

    pub open spec fn current(&self) -> R {
        self.history().current()
    }

    /// Nothing observable changed: same stack, same registry, no notify.
    pub open spec fn quiet(pre: Self, post: Self) -> bool {
        &&& History::same(pre.history(), post.history())
        &&& post.listeners() == pre.listeners()
        &&& post.announced() == pre.announced()
    }

    /// One notify pass with `route` took place.
    pub open spec fn notified(pre: Self, route: R, post: Self) -> bool {
        &&& swept(pre.listeners(), post.listeners())
        &&& post.announced() == pre.announced().push(route)
    }

    /// The full effect of `set_route` once its input became `route`.
    pub open spec fn set_route_result(pre: Self, route: R, post: Self) -> bool
        where R: PartialEq
    {
        &&& R::obeys_eq_spec() ==> (Self::quiet(pre, post) <==> pre.current().eq_spec(&route))
        &&& Self::quiet(pre, post) || (History::pushed(pre.history(), route, post.history())
            && Self::notified(pre, route, post))
    }
}

impl<R: SwitchRoute + 'static> SimpleRouteService<R> {
    pub fn new(initial_route: R) -> (s: Self)
        ensures
            s.history().entries() == seq![initial_route],
            s.history().pointer() == 0,
            s.listeners() == Seq::<Listener<R>>::empty(),
            s.announced() == Seq::<R>::empty(),
            s.well_formed(),
    {
        let history = History::new(initial_route);
        let listeners: Vec<Listener<R>> = Vec::new();
        SimpleRouteService { history, listeners, announced: Ghost(Seq::empty()) }
    }

    /// Notifies the registry with a copy of the current route.
    fn announce_current(&mut self)
        requires
            old(self).history.inv(),
        ensures
            final(self).history == old(self).history,
            swept(old(self).listeners@, final(self).listeners@),
            final(self).announced@ == old(self).announced@.push(old(self).history.current()),
    {
        let current = self.history.get_current();
        notify_callbacks(&mut self.listeners, &current);
        self.announced = Ghost(self.announced@.push(self.history.current()));
    }
}

impl<R: SwitchRoute + 'static> SwitchRouteService for SimpleRouteService<R> {
    type Route = R;

    closed spec fn well_formed(&self) -> bool {
        self.history.inv()
    }

    /// Pushes the route; only when it differs from the current one are the
    /// observers notified.
    fn set_route<RI: Into<R>>(&mut self, route: RI)
        ensures
            RI::obeys_into_spec() ==> Self::set_route_result(
                *old(self),
                route.into_spec(),
                *final(self),
            ),
            exists|r: R| Self::set_route_result(*old(self), r, *final(self)),
    {
        let route: R = route.into();
        let changed = self.history.push(route);
        if changed {
            self.announce_current();
        }
        proof {
            assert(Self::set_route_result(*old(self), route, *self));
        }
    }

    /// Replaces the current entry, notifies the observers with the new one
    /// and returns the entry it replaced.
    fn replace_route<RI: Into<R>>(&mut self, route: RI) -> (removed: R)
        ensures
            RI::obeys_into_spec() ==> History::replace_result(
                old(self).history(),
                route.into_spec(),
                final(self).history(),
                removed,
            ),
            exists|r: R|
                History::replace_result(old(self).history(), r, final(self).history(), removed),
            Self::notified(*old(self), final(self).current(), *final(self)),
    {
        let route: R = route.into();
        let ghost r = route;
        let removed = self.history.replace_current(route);
        self.announce_current();
        proof {
            assert(History::replace_result(old(self).history(), r, self.history(), removed));
        }
        removed
    }

    fn get_route(&self) -> (r: R)
        ensures
            cloned(self.current(), r),
    {
        self.history.get_current()
    }

    fn register_callback<L: AsListener<R = R>>(&mut self, listener: L)
        ensures
            final(self).history() == old(self).history(),
            final(self).announced() == old(self).announced(),
            final(self).listeners().len() == old(self).listeners().len() + 1,
            final(self).listeners().take(old(self).listeners().len() as int)
                == old(self).listeners(),
    {
        self.listeners.push(listener.as_listener());
        proof {
            assert(self.listeners@.take(old(self).listeners@.len() as int) =~= old(self).listeners@);
        }
    }

    /// Steps back one entry and notifies the observers with it; at the
    /// oldest entry returns `None` and does nothing.
    fn back(&mut self) -> (r: Option<R>)
        ensures
            old(self).history().pointer() == 0 <==> r is None,
            r is None ==> Self::quiet(*old(self), *final(self)),
            r matches Some(c) ==> {
                &&& History::back_result(old(self).history(), final(self).history())
                &&& cloned(final(self).current(), c)
                &&& Self::notified(*old(self), final(self).current(), *final(self))
            },
    {
        match self.history.back() {
            Some(route) => {
                notify_callbacks(&mut self.listeners, &route);
                self.announced = Ghost(self.announced@.push(self.history.current()));
                Some(route)
            },
            None => None,
        }
    }
}


/// Pushing a route equal to the current one leaves the stack as it was.
pub proof fn lemma_push_current_keeps_history<R: SwitchRoute>(
    pre: History<R>,
    route: R,
    post: History<R>,
    changed: bool,
)
    requires
        R::obeys_eq_spec(),
        pre.current().eq_spec(&route),
        History::push_result(pre, route, post, changed),
    ensures
        !changed,
        post.entries() == pre.entries(),
        post.pointer() == pre.pointer(),
{
}

/// Setting the route to one equal to the current route changes nothing and
/// makes no notify pass.
pub proof fn lemma_set_current_route_is_silent<R: SwitchRoute>(
    pre: SimpleRouteService<R>,
    route: R,
    post: SimpleRouteService<R>,
)
    requires
        R::obeys_eq_spec(),
        pre.current().eq_spec(&route),
        SimpleRouteService::set_route_result(pre, route, post),
    ensures
        post.history().entries() == pre.history().entries(),
        post.history().pointer() == pre.history().pointer(),
        post.announced() == pre.announced(),
        post.listeners() == pre.listeners(),
{
}

/// A push that follows a step back discards the forward branch: the stack
/// ends at the pushed route, right after the entry that was stepped back to.
pub proof fn lemma_push_after_back_truncates<R: SwitchRoute>(
    start: History<R>,
    stepped: History<R>,
    route: R,
    post: History<R>,
)
    requires
        start.inv(),
        start.pointer() > 0,
        History::back_result(start, stepped),
        History::push_result(stepped, route, post, true),
    ensures
        post.entries() == start.entries().take(start.pointer()).push(route),
        post.pointer() == start.pointer(),
        post.entries().len() == start.pointer() + 1,
{
}

/// Replacing the current entry keeps the length and the pointer, touches no
/// other entry, and hands back the entry that was there.
pub proof fn lemma_replace_keeps_shape<R: SwitchRoute>(
    pre: History<R>,
    route: R,
    post: History<R>,
    removed: R,
)
    requires
        pre.inv(),
        History::replace_result(pre, route, post, removed),
    ensures
        post.entries().len() == pre.entries().len(),
        post.pointer() == pre.pointer(),
        post.current() == route,
        removed == pre.current(),
        forall|i: int| 0 <= i < pre.entries().len() && i != pre.pointer() ==> post.entries()[i]
            == pre.entries()[i],
{
}

/// Stepping back at the oldest entry changes nothing.
pub proof fn lemma_back_at_oldest_keeps_history<R: SwitchRoute>(pre: History<R>, post: History<R>)
    requires
        pre.pointer() == 0,
        History::back_result(pre, post),
    ensures
        post.entries() == pre.entries(),
        post.pointer() == pre.pointer(),
{
}

} // verus!
