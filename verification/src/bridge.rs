//! The event/callback vtable bridge.
//!
//! The native layer registers one C-style trampoline function per event
//! kind, carrying an opaque back-pointer to the owning window. The bridge
//! maps that onto a safe, per-window table of polymorphic handler objects:
//! at most one handler per kind, replacement hands the previous handler
//! back, and a trampoline that fires for a kind whose slot is empty
//! de-registers itself from the native layer (self-healing against the
//! race where a handler is removed after the native registration was made
//! but before the callback fired).
//!
//! This module holds the two closed kind enumerations, the generic slot
//! table the two vtables share, the handler interfaces, and the laws of
//! set / unset / dispatch. The window module wires them to a window.
//!
//! A handler is invoked with the event data alone, never with a borrow
//! of the window that is dispatching: during dispatch the window is
//! exclusively borrowed by the dispatch path itself, and handing the
//! handler an aliasing window reference is exactly the lifetime mistake
//! that crashes a bridge built on raw back-pointers.

use vstd::prelude::*;
use vstd::pervasive::VecAdditionalExecFns;

verus! {

/// Number of window-level event kinds.
pub const EVENT_KIND_COUNT: usize = 14;

/// Number of input-event kinds.
pub const INPUT_KIND_COUNT: usize = 12;

/// The closed set of coarse window-lifecycle event kinds.
#[derive(Clone, Copy, Debug, PartialEq, Eq, Structural)]
pub enum EventKind {
    Resize,
    Move,
    Show,
    Hide,
    DeleteRequest,
    Destroy,
    FocusIn,
    FocusOut,
    Sticky,
    Unsticky,
    PreRender,
    PostRender,
    PreFree,
    StateChange,
}

/// The closed set of fine-grained input-event kinds.
#[derive(Clone, Copy, Debug, PartialEq, Eq, Structural)]
pub enum InputKind {
    MouseDown,
    MouseUp,
    MouseIn,
    MouseOut,
    MouseMove,
    MouseWheel,
    MultiDown,
    MultiUp,
    MultiMove,
    KeyDown,
    KeyUp,
    Hold,
}

/// The slot index of a window-level event kind in its vtable.
pub open spec fn event_kind_index(k: EventKind) -> int {
    match k {
        EventKind::Resize => 0,
        EventKind::Move => 1,
        EventKind::Show => 2,
        EventKind::Hide => 3,
        EventKind::DeleteRequest => 4,
        EventKind::Destroy => 5,
        EventKind::FocusIn => 6,
        EventKind::FocusOut => 7,
        EventKind::Sticky => 8,
        EventKind::Unsticky => 9,
        EventKind::PreRender => 10,
        EventKind::PostRender => 11,
        EventKind::PreFree => 12,
        EventKind::StateChange => 13,
    }
}

/// The slot index of an input-event kind in its vtable.
pub open spec fn input_kind_index(k: InputKind) -> int {
    match k {
        InputKind::MouseDown => 0,
        InputKind::MouseUp => 1,
        InputKind::MouseIn => 2,
        InputKind::MouseOut => 3,
        InputKind::MouseMove => 4,
        InputKind::MouseWheel => 5,
        InputKind::MultiDown => 6,
        InputKind::MultiUp => 7,
        InputKind::MultiMove => 8,
        InputKind::KeyDown => 9,
        InputKind::KeyUp => 10,
        InputKind::Hold => 11,
    }
}

impl EventKind {
    /// The slot index of this kind.
    pub fn index(&self) -> (i: usize)
        ensures
            i == event_kind_index(*self),
            i < EVENT_KIND_COUNT,
    {
        match self {
            EventKind::Resize => 0,
            EventKind::Move => 1,
            EventKind::Show => 2,
            EventKind::Hide => 3,
            EventKind::DeleteRequest => 4,
            EventKind::Destroy => 5,
            EventKind::FocusIn => 6,
            EventKind::FocusOut => 7,
            EventKind::Sticky => 8,
            EventKind::Unsticky => 9,
            EventKind::PreRender => 10,
            EventKind::PostRender => 11,
            EventKind::PreFree => 12,
            EventKind::StateChange => 13,
        }
    }
}

impl InputKind {
    /// The slot index of this kind.
    pub fn index(&self) -> (i: usize)
        ensures
            i == input_kind_index(*self),
            i < INPUT_KIND_COUNT,
    {
        match self {
            InputKind::MouseDown => 0,
            InputKind::MouseUp => 1,
            InputKind::MouseIn => 2,
            InputKind::MouseOut => 3,
            InputKind::MouseMove => 4,
            InputKind::MouseWheel => 5,
            InputKind::MultiDown => 6,
            InputKind::MultiUp => 7,
            InputKind::MultiMove => 8,
            InputKind::KeyDown => 9,
            InputKind::KeyUp => 10,
            InputKind::Hold => 11,
        }
    }
}

/// What a trampoline invocation did.
#[derive(Clone, Copy, Debug, PartialEq, Eq, Structural)]
pub enum DispatchOutcome {
    /// A handler occupied the slot of the triggering kind and was
    /// invoked, exactly once.
    Dispatched,
    /// The slot was empty: no handler was invoked, and the stale native
    /// registration for the kind was de-registered instead.
    Healed,
}

/// Whether a trampoline firing for slot `i` of table `t` dispatches to a
/// handler (rather than self-healing the native registration).
pub open spec fn dispatches<H>(t: Seq<Option<H>>, i: int) -> bool {
    t[i] is Some
}

/// A vtable: one optional polymorphic handler object per kind.
pub struct HandlerTable<H> {
    pub slots: Vec<Option<H>>,
}

impl<H> HandlerTable<H> {
    /// An empty vtable with `n` slots.
    pub fn new(n: usize) -> (t: HandlerTable<H>)
        ensures
            t.slots@.len() == n,
            forall|j: int| 0 <= j < n ==> t.slots@[j] is None,
    {
        let mut slots: Vec<Option<H>> = Vec::new();
        let mut i: usize = 0;
        while i < n
            invariant
                0 <= i <= n,
                slots@.len() == i,
                forall|j: int| 0 <= j < i ==> slots@[j] is None,
            decreases n - i,
        {
            slots.push(None);
            i = i + 1;
        }
        HandlerTable { slots }
    }

    /// Stores `handler` in slot `i`, handing back whatever handler
    /// previously occupied the slot.
    pub fn replace(&mut self, i: usize, handler: H) -> (prev: Option<H>)
        requires
            i < old(self).slots@.len(),
        ensures
            final(self).slots@ == old(self).slots@.update(i as int, Some(handler)),
            prev == old(self).slots@[i as int],
    {
        let mut cell: Option<H> = Some(handler);
        self.slots.set_and_swap(i, &mut cell);
        cell
    }

    /// Empties slot `i`, handing back the handler that occupied it, if
    /// any.
    pub fn take(&mut self, i: usize) -> (prev: Option<H>)
        requires
            i < old(self).slots@.len(),
        ensures
            final(self).slots@ == old(self).slots@.update(i as int, None),
            prev == old(self).slots@[i as int],
    {
        let mut cell: Option<H> = None;
        self.slots.set_and_swap(i, &mut cell);
        cell
    }

    /// Puts `handler` back into slot `i`.
    pub fn put(&mut self, i: usize, handler: H)
        requires
            i < old(self).slots@.len(),
        ensures
            final(self).slots@ == old(self).slots@.update(i as int, Some(handler)),
    {
        self.slots.set(i, Some(handler));
    }

    /// Whether slot `i` holds a handler.
    pub fn is_set(&self, i: usize) -> (r: bool)
        requires
            i < self.slots@.len(),
        ensures
            r == (self.slots@[i as int] is Some),
    {
        self.slots[i].is_some()
    }
}

/// The per-kind registration state of the native layer, as the bridge
/// tracks it: one flag per kind, true while a native trampoline
/// registration exists for that kind.
pub struct RegFlags {
    pub flags: Vec<bool>,
}

impl RegFlags {
    /// All kinds unregistered.
    pub fn new(n: usize) -> (r: RegFlags)
        ensures
            r.flags@.len() == n,
            forall|j: int| 0 <= j < n ==> !r.flags@[j],
    {
        let mut flags: Vec<bool> = Vec::new();
        let mut i: usize = 0;
        while i < n
            invariant
                0 <= i <= n,
                flags@.len() == i,
                forall|j: int| 0 <= j < i ==> !flags@[j],
            decreases n - i,
        {
            flags.push(false);
            i = i + 1;
        }
        RegFlags { flags }
    }

    /// Records a native registration for kind `i`. Idempotent:
    /// re-registering overwrites the native slot, it does not stack.
    pub fn set(&mut self, i: usize)
        requires
            i < old(self).flags@.len(),
        ensures
            final(self).flags@ == old(self).flags@.update(i as int, true),
    {
        self.flags.set(i, true);
    }

    /// Records a native de-registration (the "no callback" sentinel
    /// passed to the native layer) for kind `i`.
    pub fn clear(&mut self, i: usize)
        requires
            i < old(self).flags@.len(),
        ensures
            final(self).flags@ == old(self).flags@.update(i as int, false),
    {
        self.flags.set(i, false);
    }

    /// Whether a native registration exists for kind `i`.
    pub fn get(&self, i: usize) -> (r: bool)
        requires
            i < self.flags@.len(),
        ensures
            r == self.flags@[i as int],
    {
        self.flags[i]
    }
}

/// A handler for coarse window-lifecycle events. Implemented by users of
/// the wrapper; one handler object serves one vtable slot.
pub trait EventHandler {
    /// Invoked by the dispatch path, once per triggering of the kind the
    /// handler is registered for.
    fn on_event(&mut self, kind: EventKind);
}

/// A handler for fine-grained input events. Implemented by users of the
/// wrapper; one handler object serves one vtable slot.
pub trait InputHandler {
    /// Invoked by the dispatch path, once per triggering of the kind the
    /// handler is registered for, with the decoded event payload. The
    /// payload is only valid for the duration of the call.
    fn on_input(&mut self, event: &crate::events::InputEvent);
}

/// Setting a handler for a kind and then triggering that kind dispatches,
/// and dispatches to exactly the handler just set: after storing `h` in
/// slot `i`, the slot the trampoline reads holds `h` and nothing else.
pub proof fn lemma_set_then_trigger_dispatches<H>(t: Seq<Option<H>>, i: int, h: H)
    requires
        0 <= i < t.len(),
    ensures
        dispatches(t.update(i, Some(h)), i),
        t.update(i, Some(h))[i] == Some(h),
{
}

/// Unsetting the handler of a kind and then triggering that kind
/// dispatches to no handler: the trampoline takes the self-healing path,
/// which leaves every slot unchanged.
pub proof fn lemma_unset_then_trigger_heals<H>(t: Seq<Option<H>>, i: int)
    requires
        0 <= i < t.len(),
    ensures
        !dispatches(t.update(i, None), i),
{
}

/// Replacing a handler hands the previous one back: after setting `a` for
/// a kind, setting `b` for the same kind returns exactly `a`.
pub proof fn lemma_set_returns_previous<H>(t: Seq<Option<H>>, i: int, a: H)
    requires
        0 <= i < t.len(),
    ensures
        t.update(i, Some(a))[i] == Some(a),
{
}

} // verus!
