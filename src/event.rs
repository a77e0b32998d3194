use crate::window::WindowSize;
use std::sync::Arc;
use vstd::prelude::*;

verus! {

/// Turns a terminal size into the escape sequence that reports it, in the
/// dialect that the terminal session speaks.
pub trait SizeFormatter: Send + Sync {
    fn format(&self, size: WindowSize) -> String;
}

/// A notification that a terminal session raises toward the UI.
pub enum RioEvent {
    /// Grid has changed possibly requiring a mouse cursor shape change.
    MouseCursorDirty,
    /// Window title change.
    Title(String),
    /// Reset to the default window title.
    ResetTitle,
    /// Write some text to the PTY.
    PtyWrite(String),
    /// Request to write the text area size, with the formatter that renders it.
    TextAreaSizeRequest(Arc<Box<dyn SizeFormatter>>),
    /// Cursor blinking state has changed.
    CursorBlinkingChange,
    /// New terminal content available.
    Wakeup,
    /// Terminal bell ring.
    Bell,
    /// Shutdown request.
    Exit,
}

impl Clone for RioEvent {
    fn clone(&self) -> Self {
        match self {
            RioEvent::MouseCursorDirty => RioEvent::MouseCursorDirty,
            RioEvent::Title(t) => RioEvent::Title(t.clone()),
            RioEvent::ResetTitle => RioEvent::ResetTitle,
            RioEvent::PtyWrite(t) => RioEvent::PtyWrite(t.clone()),
            RioEvent::TextAreaSizeRequest(f) => RioEvent::TextAreaSizeRequest(Arc::clone(f)),
            RioEvent::CursorBlinkingChange => RioEvent::CursorBlinkingChange,
            RioEvent::Wakeup => RioEvent::Wakeup,
            RioEvent::Bell => RioEvent::Bell,
            RioEvent::Exit => RioEvent::Exit,
        }
    }
}

/// The name of the variant of `e`.
pub open spec fn tag_name(e: RioEvent) -> Seq<char> {
    match e {
        RioEvent::MouseCursorDirty => "MouseCursorDirty"@,
        RioEvent::Title(_) => "Title"@,
        RioEvent::ResetTitle => "ResetTitle"@,
        RioEvent::PtyWrite(_) => "PtyWrite"@,
        RioEvent::TextAreaSizeRequest(_) => "TextAreaSizeRequest"@,
        RioEvent::CursorBlinkingChange => "CursorBlinkingChange"@,
        RioEvent::Wakeup => "Wakeup"@,
        RioEvent::Bell => "Bell"@,
        RioEvent::Exit => "Exit"@,
    }
}

/// The one-line description of `e`: the variant's name, followed by its text
/// in parentheses where it carries text. A formatter is never rendered.
pub open spec fn debug_text(e: RioEvent) -> Seq<char> {
    match e {
        RioEvent::Title(t) => "Title("@ + t@ + ")"@,
        RioEvent::PtyWrite(t) => "PtyWrite("@ + t@ + ")"@,
        _ => tag_name(e),
    }
}

/// Every description begins with the name of the event's variant, and a size
/// request is described by that name alone, whatever formatter it carries.
pub proof fn lemma_debug_text_names_variant(e: RioEvent)
    ensures
        tag_name(e).len() <= debug_text(e).len(),
        debug_text(e).subrange(0, tag_name(e).len() as int) == tag_name(e),
        e is TextAreaSizeRequest ==> debug_text(e) == "TextAreaSizeRequest"@,
{
    match e {
        RioEvent::Title(t) => {
            reveal_strlit("Title");
            reveal_strlit("Title(");
            assert(debug_text(e).subrange(0, 5) =~= tag_name(e));
        },
        RioEvent::PtyWrite(t) => {
            reveal_strlit("PtyWrite");
            reveal_strlit("PtyWrite(");
            assert(debug_text(e).subrange(0, 8) =~= tag_name(e));
        },
        _ => {
            assert(debug_text(e).subrange(0, tag_name(e).len() as int) =~= tag_name(e));
        },
    }
}

impl RioEvent {
    /// Renders the event for diagnostics, as `debug_text` describes.
    pub fn to_debug_string(&self) -> (r: String)
        ensures
            r@ == debug_text(*self),
    {
        match self {
            RioEvent::TextAreaSizeRequest(_) => String::from_str("TextAreaSizeRequest"),
            RioEvent::PtyWrite(text) => {
                String::from_str("PtyWrite(").concat(text.as_str()).concat(")")
            },
            RioEvent::Title(title) => String::from_str("Title(").concat(title.as_str()).concat(
                ")",
            ),
            RioEvent::CursorBlinkingChange => String::from_str("CursorBlinkingChange"),
            RioEvent::MouseCursorDirty => String::from_str("MouseCursorDirty"),
            RioEvent::ResetTitle => String::from_str("ResetTitle"),
            RioEvent::Wakeup => String::from_str("Wakeup"),
            RioEvent::Bell => String::from_str("Bell"),
            RioEvent::Exit => String::from_str("Exit"),
        }
    }
}

/// A notification delivered to the UI event loop.
pub enum RioEventType {
    /// The window's scale factor changed: the factor, as the bit pattern that
    /// `f64::to_bits` gives, and the new physical size in pixels.
    ScaleFactorChanged(u64, (u32, u32)),
    /// A notification raised by the terminal session.
    Rio(RioEvent),
    BlinkCursor,
    BlinkCursorTimeout,
    SearchNext,
    Frame,
}

impl Clone for RioEventType {
    fn clone(&self) -> Self {
        match self {
            RioEventType::ScaleFactorChanged(factor, (width, height)) => {
                RioEventType::ScaleFactorChanged(*factor, (*width, *height))
            },
            RioEventType::Rio(event) => RioEventType::Rio(event.clone()),
            RioEventType::BlinkCursor => RioEventType::BlinkCursor,
            RioEventType::BlinkCursorTimeout => RioEventType::BlinkCursorTimeout,
            RioEventType::SearchNext => RioEventType::SearchNext,
            RioEventType::Frame => RioEventType::Frame,
        }
    }
}

impl From<RioEvent> for RioEventType {
    fn from(rio_event: RioEvent) -> Self {
        RioEventType::Rio(rio_event)
    }
}

impl vstd::std_specs::convert::FromSpecImpl<RioEvent> for RioEventType {
    open spec fn obeys_from_spec() -> bool {
        true
    }

    open spec fn from_spec(rio_event: RioEvent) -> Self {
        RioEventType::Rio(rio_event)
    }
}

/// The unit posted onto the UI event loop's queue.
#[derive(Clone)]
pub struct EventP {
    /// Event payload.
    pub payload: RioEventType,
}

impl EventP {
    pub fn new(payload: RioEventType) -> (r: Self)
        ensures
            r.payload == payload,
    {
        EventP { payload }
    }

    /// The envelope that carries a terminal session's notification to the UI:
    /// exactly one, holding the notification unchanged.
    pub fn from_rio_event(event: RioEvent) -> (r: Self)
        ensures
            r.payload == RioEventType::Rio(event),
    {
        EventP::new(RioEventType::from(event))
    }
}

} // verus!
