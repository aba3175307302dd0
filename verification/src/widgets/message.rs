//! Control messages and the rules by which they are routed.

use vstd::prelude::*;
use crate::pixel::PartPixel;
use crate::screen::PartContent;

verus! {

/// A control message, as it arrives from outside.
#[derive(Clone, Debug)]
pub enum NeoClockMessage {
    Show(usize),
    Hide(usize),
    Move(MoveMessage),
    Solid { id: usize, msg: SolidMessage },
    Clock { id: usize, msg: ClockMessage },
    Calendar { id: usize, msg: CalendarMessage },
    Gif { id: usize, msg: GifMessage },
    Flyer { id: usize, msg: FlyerMessage },
}

#[derive(Clone, Copy, Debug)]
pub struct MoveMessage {
    pub id: usize,
    pub x: u32,
    pub y: u32,
}

#[derive(Clone, Copy, Debug)]
pub struct SolidMessage {
    pub color: PartPixel,
}

#[derive(Clone, Copy, Debug)]
pub struct ClockMessage;

#[derive(Clone, Copy, Debug)]
pub struct CalendarMessage;

/// Asks an animated-image widget to play another source.
#[derive(Clone, Debug)]
pub struct GifMessage {
    pub url: String,
}

/// A text for the ticker, to be shown for `ttl` seconds.
#[derive(Clone, Debug)]
pub struct FlyerMessage {
    pub text: String,
    pub ttl: u32,
}

/// What a widget finds in its inbound queue.
#[derive(Clone, Debug)]
pub enum WidgetMessage {
    Solid(SolidMessage),
    Clock(ClockMessage),
    Calendar(CalendarMessage),
    Gif(GifMessage),
    Flyer(FlyerMessage),
}

/// A change the router makes to a cell itself.
#[derive(Clone, Copy, Debug)]
pub enum PartChange {
    Show,
    Hide,
    Move { x: u32, y: u32 },
}

/// What the router does with one message.
#[derive(Clone, Debug)]
pub enum Dispatch {
    /// Nothing: the message names a widget that does not exist.
    Drop,
    /// Change the cell of widget `id`.
    Change { id: usize, change: PartChange },
    /// Put `payload` into the inbound queue of widget `id`.
    Forward { id: usize, payload: WidgetMessage },
}

impl NeoClockMessage {
    /// The widget this message is addressed to.
    pub open spec fn target(&self) -> usize {
        match *self {
            NeoClockMessage::Show(id) => id,
            NeoClockMessage::Hide(id) => id,
            NeoClockMessage::Move(m) => m.id,
            NeoClockMessage::Solid { id, .. } => id,
            NeoClockMessage::Clock { id, .. } => id,
            NeoClockMessage::Calendar { id, .. } => id,
            NeoClockMessage::Gif { id, .. } => id,
            NeoClockMessage::Flyer { id, .. } => id,
        }
    }

    /// The change this message makes to a cell, if it is one of the three
    /// that the router carries out itself.
    pub open spec fn change(&self) -> Option<PartChange> {
        match *self {
            NeoClockMessage::Show(_) => Some(PartChange::Show),
            NeoClockMessage::Hide(_) => Some(PartChange::Hide),
            NeoClockMessage::Move(m) => Some(PartChange::Move { x: m.x, y: m.y }),
            _ => None,
        }
    }

    /// What this message hands to the widget, if it is meant for the widget.
    pub open spec fn payload(&self) -> Option<WidgetMessage> {
        match *self {
            NeoClockMessage::Solid { msg, .. } => Some(WidgetMessage::Solid(msg)),
            NeoClockMessage::Clock { msg, .. } => Some(WidgetMessage::Clock(msg)),
            NeoClockMessage::Calendar { msg, .. } => Some(WidgetMessage::Calendar(msg)),
            NeoClockMessage::Gif { msg, .. } => Some(WidgetMessage::Gif(msg)),
            NeoClockMessage::Flyer { msg, .. } => Some(WidgetMessage::Flyer(msg)),
            _ => None,
        }
    }
}

/// What the router does with `msg` when there are `count` widgets.
pub open spec fn routed(msg: NeoClockMessage, count: int) -> Dispatch {
    if msg.target() >= count {
        Dispatch::Drop
    } else if msg.change().is_some() {
        Dispatch::Change { id: msg.target(), change: msg.change().unwrap() }
    } else {
        Dispatch::Forward { id: msg.target(), payload: msg.payload().unwrap() }
    }
}

/// A cell after `change`.
pub open spec fn changed(part: PartContent, change: PartChange) -> PartContent {
    match change {
        PartChange::Show => PartContent { visible: true, ..part },
        PartChange::Hide => PartContent { visible: false, ..part },
        PartChange::Move { x, y } => PartContent { x, y, ..part },
    }
}

/// The cells after the router has handled `msg`: a change to the one cell
/// the message names, nothing where it names none or is meant for a widget.
pub open spec fn cells_after(parts: Seq<PartContent>, msg: NeoClockMessage) -> Seq<PartContent> {
    match routed(msg, parts.len() as int) {
        Dispatch::Change { id, change } => parts.update(id as int, changed(parts[id as int], change)),
        _ => parts,
    }
}

/// Decides what is done with `msg` when there are `count` widgets: show,
/// hide and move become a change of a cell, everything else goes to the
/// widget's queue, and a message to a widget that does not exist is dropped.
pub fn dispatch(msg: NeoClockMessage, count: usize) -> (d: Dispatch)
    ensures
        d == routed(msg, count as int),
{
    match msg {
        NeoClockMessage::Show(id) => {
            if id < count {
                Dispatch::Change { id, change: PartChange::Show }
            } else {
                Dispatch::Drop
            }
        },
        NeoClockMessage::Hide(id) => {
            if id < count {
                Dispatch::Change { id, change: PartChange::Hide }
            } else {
                Dispatch::Drop
            }
        },
        NeoClockMessage::Move(MoveMessage { id, x, y }) => {
            if id < count {
                Dispatch::Change { id, change: PartChange::Move { x, y } }
            } else {
                Dispatch::Drop
            }
        },
        NeoClockMessage::Solid { id, msg: m } => {
            if id < count {
                Dispatch::Forward { id, payload: WidgetMessage::Solid(m) }
            } else {
                Dispatch::Drop
            }
        },
        NeoClockMessage::Clock { id, msg: m } => {
            if id < count {
                Dispatch::Forward { id, payload: WidgetMessage::Clock(m) }
            } else {
                Dispatch::Drop
            }
        },
        NeoClockMessage::Calendar { id, msg: m } => {
            if id < count {
                Dispatch::Forward { id, payload: WidgetMessage::Calendar(m) }
            } else {
                Dispatch::Drop
            }
        },
        NeoClockMessage::Gif { id, msg: m } => {
            if id < count {
                Dispatch::Forward { id, payload: WidgetMessage::Gif(m) }
            } else {
                Dispatch::Drop
            }
        },
        NeoClockMessage::Flyer { id, msg: m } => {
            if id < count {
                Dispatch::Forward { id, payload: WidgetMessage::Flyer(m) }
            } else {
                Dispatch::Drop
            }
        },
    }
}

impl PartContent {
    /// Carries out one change on this cell. The frame is never touched.
    pub fn apply(&mut self, change: PartChange)
        ensures
            *final(self) == changed(*old(self), change),
    {
        match change {
            PartChange::Show => {
                self.visible = true;
            },
            PartChange::Hide => {
                self.visible = false;
            },
            PartChange::Move { x, y } => {
                self.x = x;
                self.y = y;
            },
        }
    }
}

/// Handles one message over the cells of all widgets. Show, hide and move
/// change the one cell they name and no other; a message for a widget is
/// handed back to be queued; a message to a widget that does not exist
/// changes nothing and is dropped.
pub fn msg_handler(parts: &mut Vec<PartContent>, msg: NeoClockMessage) -> (d: Dispatch)
    ensures
        d == routed(msg, old(parts)@.len() as int),
        final(parts)@ == cells_after(old(parts)@, msg),
{
    let d = dispatch(msg, parts.len());
    match d {
        Dispatch::Change { id, change } => {
            parts[id].apply(change);
        },
        _ => {},
    }
    d
}

/// The router changes at most the cell that the message names: the number
/// of cells stays, every other cell stays as it is, and a message that names
/// no existing widget changes none.
pub proof fn router_touches_one_cell(parts: Seq<PartContent>, msg: NeoClockMessage)
    ensures
        cells_after(parts, msg).len() == parts.len(),
        forall|j: int|
            0 <= j < parts.len() && j != msg.target() ==> cells_after(parts, msg)[j] == parts[j],
        msg.target() >= parts.len() ==> cells_after(parts, msg) == parts,
        forall|j: int|
            0 <= j < parts.len() ==> (#[trigger] cells_after(parts, msg)[j]).image == parts[j].image,
{
}

} // verus!
