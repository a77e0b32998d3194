use crate::event::{EventP, RioEvent, RioEventType};
use vstd::prelude::*;
use winit::event::Event;
use winit::event_loop::EventLoopProxy;

verus! {

#[verifier::external_type_specification]
#[verifier::external_body]
#[verifier::reject_recursive_types(T)]
pub struct ExEventLoopProxy<T: 'static>(EventLoopProxy<T>);

#[verifier::external_type_specification]
#[verifier::external_body]
#[verifier::reject_recursive_types(T)]
pub struct ExEvent<'a, T: 'static>(Event<'a, T>);

/// Relies on `Clone` for `winit::event_loop::EventLoopProxy`: a second handle
/// onto the same event loop.
pub assume_specification<T: 'static>[ <EventLoopProxy<T> as Clone>::clone ](
    proxy: &EventLoopProxy<T>,
) -> EventLoopProxy<T>;

/// Event Loop for notifying the renderer about terminal events.
pub trait EventListener {
    fn send_event(&self, _event: RioEvent) {
    }
}

/// A listener for sessions that have no UI attached: every event is dropped.
pub struct VoidListener;

impl EventListener for VoidListener {

}

/// Relies on `winit::event_loop::EventLoopProxy::send_event`, which queues
/// `event` for the loop that made `proxy` and wakes that loop, or hands the
/// event back once the loop is gone; that outcome is dropped. On X11 the call
/// panics if waking the loop fails, which no argument here can rule out.
#[verifier::external_body]
fn post_user_event(proxy: &EventLoopProxy<EventP>, event: EventP) {
    let _ = proxy.send_event(event);
}

/// Relies on `winit::event::Event::UserEvent`, the variant in which the event
/// loop hands a posted event back to its handler.
#[verifier::external_body]
fn user_event<'a>(event: EventP) -> Event<'a, EventP> {
    Event::UserEvent(event)
}

impl<'a> From<EventP> for Event<'a, EventP> {
    fn from(event: EventP) -> Self {
        user_event(event)
    }
}

// A winit event is opaque to the proofs, so the conversion states nothing of it.
impl<'a> vstd::std_specs::convert::FromSpecImpl<EventP> for Event<'a, EventP> {
    open spec fn obeys_from_spec() -> bool {
        false
    }

    open spec fn from_spec(event: EventP) -> Self {
        arbitrary()
    }
}

/// Posts events onto a UI event loop.
#[derive(Debug, Clone)]
pub struct EventProxy {
    proxy: EventLoopProxy<EventP>,
}

impl EventProxy {
    /// The handle onto the event loop that this proxy posts to.
    pub closed spec fn loop_proxy(&self) -> EventLoopProxy<EventP> {
        self.proxy
    }

    pub fn new(proxy: EventLoopProxy<EventP>) -> (r: Self)
        ensures
            r.loop_proxy() == proxy,
    {
        EventProxy { proxy }
    }

    /// Send an event to the event loop.
    pub fn send_event(&self, event: RioEventType) {
        post_user_event(&self.proxy, EventP::new(event));
    }
}

impl EventListener for EventProxy {
    fn send_event(&self, event: RioEvent) {
        post_user_event(&self.proxy, EventP::from_rio_event(event));
    }
}

} // verus!
