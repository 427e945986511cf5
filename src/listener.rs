use std::rc::{Rc, Weak};
use vstd::prelude::*;

verus! {

/// Something that reacts to a route.
pub trait Observer<R> {
    fn on_route(&self, route: R);
}

/// Adapts a closure into an `Observer`.
pub struct FnObserver<F> {
    f: F,
}

/// Relies on calling a closure: runs `f` on `route`.
#[verifier::external_body]
fn call_closure<R, F: Fn(R)>(f: &F, route: R) {
    f(route)
}

impl<R, F: Fn(R)> Observer<R> for FnObserver<F> {
    fn on_route(&self, route: R) {
        call_closure(&self.f, route)
    }
}

/// An owning, shared handle to an observer. While one of its clones lives,
/// every `Listener` taken from it stays live.
#[verifier::reject_recursive_types(R)]
pub struct Callback<R> {
    owner: Rc<dyn Observer<R> + 'static>,
}

/// A non-owning handle to an observer; it goes dead when the last owning
/// `Callback` is dropped. `std::rc::Weak` cannot be declared to the
/// verifier (it carries an allocator parameter), so the handle is kept
/// opaque here.
#[verifier::external_body]
#[verifier::reject_recursive_types(R)]
pub struct Listener<R> {
    handle: Weak<dyn Observer<R> + 'static>,
}

/// Relies on `Rc::new`: puts the closure behind a fresh shared owner.
#[verifier::external_body]
fn share_closure<R, F: Fn(R) + 'static>(f: F) -> Callback<R> {
    let owner: Rc<dyn Observer<R>> = Rc::new(FnObserver { f });
    Callback { owner }
}

/// Relies on `Rc::downgrade`: a weak handle to the same observer.
#[verifier::external_body]
fn downgrade<R>(c: &Callback<R>) -> Listener<R> {
    Listener { handle: Rc::downgrade(&c.owner) }
}

/// Relies on `Weak::upgrade`: `Some` owner while the observer is alive,
/// `None` once it has been released. Which one comes back depends on the
/// owners alive at the time of the call.
#[verifier::external_body]
fn upgrade<R>(l: &Listener<R>) -> Option<Callback<R>> {
    l.handle.upgrade().map(|owner| Callback { owner })
}

/// Relies on `Rc::clone`: one more owner of the same observer.
#[verifier::external_body]
fn share_again<R>(c: &Callback<R>) -> Callback<R> {
    Callback { owner: Rc::clone(&c.owner) }
}

/// Relies on `Weak::clone`: one more weak handle to the same observer.
#[verifier::external_body]
fn weak_again<R>(l: &Listener<R>) -> Listener<R> {
    Listener { handle: Weak::clone(&l.handle) }
}

impl<R> Callback<R> {
    pub fn new<F: Fn(R) + 'static>(f: F) -> Self {
        share_closure(f)
    }

    /// Runs the observer on `args`.
    pub fn emit(&self, args: R) {
        self.owner.on_route(args)
    }
}

impl<R> Clone for Callback<R> {
    fn clone(&self) -> Self {
        share_again(self)
    }
}

impl<R> Listener<R> {
    /// The observer, if its owner is still alive.
    pub fn callback(&self) -> Option<Callback<R>> {
        upgrade(self)
    }
}

impl<R> Clone for Listener<R> {
    fn clone(&self) -> Self {
        weak_again(self)
    }
}

/// Anything from which a weak handle to an observer can be taken.
pub trait AsListener {
    type R;

    fn as_listener(&self) -> Listener<Self::R>;
}

impl<'a, R> AsListener for &'a Callback<R> {
    type R = R;

    fn as_listener(&self) -> Listener<R> {
        downgrade(*self)
    }
}

} // verus!
