use crate::listener::{AsListener, Listener};
use crate::route::SwitchRoute;
use vstd::prelude::*;

pub mod location;
pub mod simple;

pub use location::{location_path, route_from_location};
pub use simple::{History, SimpleRouteService};

verus! {

/// The items of `s` whose flag in `alive` is set, in their order.
pub open spec fn keep<T>(s: Seq<T>, alive: Seq<bool>) -> Seq<T>
    decreases s.len(),
{
    if s.len() == 0 {
        Seq::empty()
    } else {
        let rest = keep(s.skip(1), alive.skip(1));
        if alive[0] {
            seq![s[0]] + rest
        } else {
            rest
        }
    }
}

/// How many flags of `alive` are cleared.
pub open spec fn dead_count(alive: Seq<bool>) -> nat
    decreases alive.len(),
{
    if alive.len() == 0 {
        0
    } else {
        (if alive[0] { 0nat } else { 1nat }) + dead_count(alive.skip(1))
    }
}

/// A sweep shortens the registry by exactly the number of dead handles it
/// found, and a sweep that found none leaves the registry as it was.
pub proof fn lemma_sweep_count<T>(s: Seq<T>, alive: Seq<bool>)
    requires
        alive.len() == s.len(),
    ensures
        keep(s, alive).len() + dead_count(alive) == s.len(),
        dead_count(alive) == 0 ==> keep(s, alive) == s,
    decreases s.len(),
{
    if s.len() > 0 {
        lemma_sweep_count(s.skip(1), alive.skip(1));
        if dead_count(alive) == 0 {
            assert(seq![s[0]] + s.skip(1) =~= s);
        }
    }
}

/// `post` is what a sweep of `pre` leaves: the live handles in their order,
/// shorter by the number of dead handles found.
pub open spec fn swept<T>(pre: Seq<T>, post: Seq<T>) -> bool {
    exists|alive: Seq<bool>|
        #![trigger keep(pre, alive)]
        alive.len() == pre.len() && post == keep(pre, alive) && post.len() + dead_count(alive)
            == pre.len()
}

/// Removes the listeners whose flag in `alive` is cleared and keeps the
/// others in their order.
pub fn retain_live<R>(listeners: &mut Vec<Listener<R>>, alive: &Vec<bool>)
    requires
        alive@.len() == old(listeners)@.len(),
    ensures
        final(listeners)@ == keep(old(listeners)@, alive@),
        final(listeners)@.len() + dead_count(alive@) == old(listeners)@.len(),
{
    let ghost s = listeners@;
    let mut i: usize = listeners.len();
    proof {
        assert(s.skip(i as int) =~= Seq::empty());
        assert(listeners@ =~= s.take(i as int) + keep(s.skip(i as int), alive@.skip(i as int)));
    }
    while i > 0
        invariant
            i <= s.len(),
            alive@.len() == s.len(),
            listeners@ == s.take(i as int) + keep(s.skip(i as int), alive@.skip(i as int)),
        decreases i,
    {
        let j = i - 1;
        proof {
            assert(s.skip(j as int).skip(1) =~= s.skip(i as int));
            assert(alive@.skip(j as int).skip(1) =~= alive@.skip(i as int));
        }
        if !alive[j] {
            listeners.remove(j);
            proof {
                assert(listeners@ =~= s.take(j as int) + keep(s.skip(j as int), alive@.skip(j as int)));
            }
        } else {
            proof {
                assert(listeners@ =~= s.take(j as int) + keep(s.skip(j as int), alive@.skip(j as int)));
            }
        }
        i = j;
    }
    proof {
        assert(s.skip(0) =~= s);
        assert(alive@.skip(0) =~= alive@);
        lemma_sweep_count(s, alive@);
    }
}

/// One notify pass: every listener whose owner is alive gets a copy of
/// `route`, in registration order; the dead ones are then removed.
pub fn notify_callbacks<R: Clone>(listeners: &mut Vec<Listener<R>>, route: &R)
    ensures
        swept(old(listeners)@, final(listeners)@),
{
    let mut alive: Vec<bool> = Vec::new();
    let n = listeners.len();
    let mut i: usize = 0;
    while i < n
        invariant
            n == listeners@.len(),
            listeners@ == old(listeners)@,
            i <= n,
            alive@.len() == i,
        decreases n - i,
    {
        match listeners[i].callback() {
            Some(callback) => {
                callback.emit(route.clone());
                alive.push(true);
            },
            None => {
                alive.push(false);
            },
        }
        i = i + 1;
    }
    retain_live(listeners, &alive);
}

/// What a route service offers: push, replace and read the current route,
/// step back, and register observers of route changes.
pub trait SwitchRouteService {
    type Route: SwitchRoute + 'static;

    /// The service's internal state is consistent; every operation keeps it
    /// so. A service with no internal state to keep consistent has it always.
    open spec fn well_formed(&self) -> bool {
        true
    }

    fn set_route<RI: Into<Self::Route>>(&mut self, route: RI)
        requires
            old(self).well_formed(),
        ensures
            final(self).well_formed(),
    ;

    fn replace_route<RI: Into<Self::Route>>(&mut self, route: RI) -> (removed: Self::Route)
        requires
            old(self).well_formed(),
        ensures
            final(self).well_formed(),
    ;

    fn get_route(&self) -> Self::Route
        requires
            self.well_formed(),
    ;

    fn register_callback<L: AsListener<R = Self::Route>>(&mut self, listener: L)
        requires
            old(self).well_formed(),
        ensures
            final(self).well_formed(),
    ;

    fn back(&mut self) -> (r: Option<Self::Route>)
        requires
            old(self).well_formed(),
        ensures
            final(self).well_formed(),
    ;
}

} // verus!
