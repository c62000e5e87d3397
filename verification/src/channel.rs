//! The process-wide event sink: a buffered channel that the application
//! polls, or a single host-held callback, selected at most once per
//! process lifetime. The router decides where each event goes; the host
//! owns the callback itself and the process-wide placement of the router.

use vstd::prelude::*;

use crate::event::TrayIconEvent;

verus! {

/// Both ends of the unbounded event channel, held together so that the
/// channel is never disconnected and its buffered contents are a function
/// of this one value. Sending never blocks; the buffer grows without
/// bound if the consumer never polls, a documented trade-off.
#[verifier::external_body]
pub struct EventQueue {
    sender: crossbeam_channel::Sender<TrayIconEvent>,
    receiver: crossbeam_channel::Receiver<TrayIconEvent>,
}

/// The events buffered in the queue, oldest first.
pub uninterp spec fn queue_events(q: EventQueue) -> Seq<TrayIconEvent>;

impl EventQueue {
    /// Relies on crossbeam_channel::unbounded: a fresh channel buffers
    /// nothing.
    #[verifier::external_body]
    pub fn new() -> (r: EventQueue)
        ensures
            queue_events(r) == Seq::<TrayIconEvent>::empty(),
    {
        let (sender, receiver) = crossbeam_channel::unbounded();
        EventQueue { sender, receiver }
    }

    /// Relies on crossbeam_channel::Sender::send and the channel's
    /// first-in-first-out order: the event is appended to the buffer
    /// without blocking, and cannot be rejected while this value holds the
    /// receiving end.
    #[verifier::external_body]
    pub fn send(&mut self, event: TrayIconEvent)
        ensures
            queue_events(*final(self)) == queue_events(*old(self)).push(event),
    {
        let _ = self.sender.send(event);
    }

    /// Relies on crossbeam_channel::Receiver::try_recv: pops the oldest
    /// buffered event without blocking, or returns nothing when the
    /// buffer is empty.
    #[verifier::external_body]
    pub fn try_recv(&mut self) -> (r: Option<TrayIconEvent>)
        ensures
            queue_events(*old(self)).len() == 0 ==> r is None && queue_events(*final(self))
                == queue_events(*old(self)),
            queue_events(*old(self)).len() > 0 ==> r == Some(queue_events(*old(self))[0])
                && queue_events(*final(self)) == queue_events(*old(self)).drop_first(),
    {
        self.receiver.try_recv().ok()
    }
}

/// The mathematical content of the event router's state.
#[verifier::ext_equal]
pub ghost struct EventRouterView {
    /// The buffered events, oldest first.
    pub queued: Seq<TrayIconEvent>,
    /// Whether the delivery mode has been decided.
    pub configured: bool,
    /// Whether events go to the host-held callback instead of the buffer.
    pub use_handler: bool,
}

/// The process-wide event router. Two delivery modes exist, mutually
/// exclusive and selected at most once per process lifetime: the buffered
/// channel that the application polls, or a callback the host holds and
/// invokes. Once the mode is decided (by an explicit configuration call or
/// by the first routed event) it never changes.
pub struct EventRouter {
    queue: EventQueue,
    configured: bool,
    use_handler: bool,
}

impl View for EventRouter {
    type V = EventRouterView;

    closed spec fn view(&self) -> EventRouterView {
        EventRouterView {
            queued: queue_events(self.queue),
            configured: self.configured,
            use_handler: self.use_handler,
        }
    }
}

impl EventRouter {
    /// A fresh, unconfigured router with an empty buffer.
    pub fn new() -> (r: EventRouter)
        ensures
            r@ == (EventRouterView { queued: Seq::<TrayIconEvent>::empty(), configured: false, use_handler: false }),
    {
        EventRouter { queue: EventQueue::new(), configured: false, use_handler: false }
    }

    /// Selects the delivery mode, once: `handler` says whether the host
    /// installs a callback. The first selection wins; any later call
    /// changes nothing and installs nothing. Returns whether the host must
    /// keep its callback.
    pub fn set_event_handler(&mut self, handler: bool) -> (installed: bool)
        ensures
            old(self)@.configured ==> final(self)@ == old(self)@ && !installed,
            !old(self)@.configured ==> final(self)@ == (EventRouterView {
                configured: true,
                use_handler: handler,
                ..old(self)@
            }) && installed == handler,
    {
        if self.configured {
            false
        } else {
            self.configured = true;
            self.use_handler = handler;
            handler
        }
    }

    /// Routes one event. When the callback mode is active the event is
    /// handed back for the host to pass to its callback; otherwise it is
    /// appended to the buffer without blocking. The first routed event
    /// locks the delivery mode to the buffer when no callback was
    /// installed before.
    pub fn send(&mut self, event: TrayIconEvent) -> (r: Option<TrayIconEvent>)
        ensures
            final(self)@.configured,
            final(self)@.use_handler == old(self)@.use_handler,
            old(self)@.use_handler ==> r == Some(event) && final(self)@.queued == old(
                self,
            )@.queued,
            !old(self)@.use_handler ==> r is None && final(self)@.queued == old(
                self,
            )@.queued.push(event),
    {
        self.configured = true;
        if self.use_handler {
            Some(event)
        } else {
            self.queue.send(event);
            None
        }
    }

    /// Polls the buffered channel: pops the oldest buffered event, or
    /// returns nothing when the buffer is empty. In callback mode the
    /// buffer stays empty, so polling returns nothing.
    pub fn try_recv(&mut self) -> (r: Option<TrayIconEvent>)
        ensures
            final(self)@.configured == old(self)@.configured,
            final(self)@.use_handler == old(self)@.use_handler,
            old(self)@.queued.len() == 0 ==> r is None && final(self)@.queued == old(
                self,
            )@.queued,
            old(self)@.queued.len() > 0 ==> r == Some(old(self)@.queued[0]) && final(self)@.queued
                == old(self)@.queued.drop_first(),
    {
        self.queue.try_recv()
    }
}

} // verus!
