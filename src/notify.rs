use crate::msg::Msg;
use crate::window::WindowSize;
use std::borrow::Cow;
use std::sync::mpsc::Sender;
use vstd::prelude::*;

verus! {

#[verifier::external_type_specification]
#[verifier::external_body]
#[verifier::reject_recursive_types(T)]
pub struct ExSender<T>(Sender<T>);

/// Something that reacts to a change of the terminal's size.
pub trait OnResize {
    fn on_resize(&mut self, window_size: WindowSize);
}

/// Byte sequences are sent to a `Notify` in response to some events.
pub trait Notify {
    /// Notify that an escape sequence should be written to the PTY.
    fn notify<B: Into<Cow<'static, [u8]>>>(&self, bytes: B);
}

/// Sending half of the channel read by the PTY actor.
pub struct Notifier(pub Sender<Msg>);

/// Relies on `std::sync::mpsc::Sender::send`, which queues `msg` without
/// blocking and hands it back when the receiver is gone; that outcome is
/// dropped, so a send never fails the caller.
#[verifier::external_body]
fn post(sender: &Sender<Msg>, msg: Msg) {
    let _ = sender.send(msg);
}

impl Notify for Notifier {
    fn notify<B: Into<Cow<'static, [u8]>>>(&self, bytes: B) {
        let bytes: Cow<'static, [u8]> = bytes.into();
        match Msg::input(bytes) {
            Some(msg) => post(&self.0, msg),
            None => {},
        }
    }
}

impl OnResize for Notifier {
    fn on_resize(&mut self, window_size: WindowSize) {
        post(&self.0, Msg::Resize(window_size));
    }
}

} // verus!
