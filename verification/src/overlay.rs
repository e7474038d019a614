//! Radial overlay model: which ring is on screen and what a click on one of
//! its sectors does, plus the integer geometry of placing the overlay. The
//! floating-point sector layout and hit-testing live with the renderer.
use vstd::prelude::*;
use crate::menu::{MenuAction, MenuNode, action_view};

verus! {

/// Side of the square overlay window, in pixels.
pub const OVERLAY_SIZE: i32 = 256;

/// What a click on a sector did.
#[derive(Debug, Clone, PartialEq, Eq)]
pub enum Click {
    /// Nothing to do (dead centre, or a category that cannot fan out).
    Miss,
    /// Ring 1 replaced by that category's ring 2.
    Expanded,
    /// A leaf was picked: this is the action the app has to run.
    Action(MenuAction),
}

/// The menu the overlay currently shows, plus where in it we are.
#[derive(Debug)]
pub struct RingModel {
    /// Whole menu. Only labels, actions and children matter here.
    menu: Vec<MenuNode>,
    /// Indices picked on the way down; empty means ring 1.
    path: Vec<usize>,
}

impl RingModel {
    pub closed spec fn menu(&self) -> Seq<MenuNode> {
        self.menu@
    }

    pub closed spec fn path(&self) -> Seq<usize> {
        self.path@
    }

    /// The picked category, if any, is a node of the menu.
    pub closed spec fn wf(&self) -> bool {
        self.path@.len() > 0 ==> self.path@[0] < self.menu@.len()
    }

    /// The nodes drawn on the current ring.
    pub open spec fn ring(&self) -> Seq<MenuNode> {
        if self.path().len() == 0 {
            self.menu()
        } else {
            self.menu()[self.path()[0] as int].children@
        }
    }

    pub fn new(menu: Vec<MenuNode>) -> (r: Self)
        ensures
            r.wf(),
            r.menu() == menu@,
            r.path().len() == 0,
    {
        RingModel { menu, path: Vec::new() }
    }

    /// The nodes drawn on the current ring.
    pub fn current(&self) -> (r: &[MenuNode])
        requires
            self.wf(),
        ensures
            r@ == self.ring(),
    {
        if self.path.len() == 0 {
            self.menu.as_slice()
        } else {
            self.menu[self.path[0]].children.as_slice()
        }
    }

    /// The labels of the current ring, in order.
    pub fn labels(&self) -> (r: Vec<String>)
        requires
            self.wf(),
        ensures
            r@.len() == self.ring().len(),
            forall|i: int| 0 <= i < r@.len() ==> #[trigger] r@[i]@ == self.ring()[i].label@,
    {
        let ring = self.current();
        let mut r: Vec<String> = Vec::new();
        let mut i: usize = 0;
        while i < ring.len()
            invariant
                ring@ == self.ring(),
                i <= ring@.len(),
                r@.len() == i,
                forall|j: int| 0 <= j < i ==> #[trigger] r@[j]@ == ring@[j].label@,
            decreases ring@.len() - i,
        {
            r.push(ring[i].label.clone());
            i = i + 1;
        }
        r
    }

    /// Resolve a click: a category fans out, a leaf hands back its action.
    pub fn click(&mut self, index: usize) -> (r: Click)
        requires
            old(self).wf(),
        ensures
            final(self).wf(),
            final(self).menu() == old(self).menu(),
            index >= old(self).ring().len() ==> r == Click::Miss && final(self).path() == old(
                self,
            ).path(),
            index < old(self).ring().len() && old(self).ring()[index as int].children@.len() == 0
                ==> final(self).path() == old(self).path() && match action_view(
                old(self).ring()[index as int].action,
            ) {
                Some(a) => r matches Click::Action(got) && got@ == a,
                None => r == Click::Miss,
            },
            index < old(self).ring().len() && old(self).ring()[index as int].children@.len() > 0
                ==> r == Click::Expanded && final(self).path() == old(self).path().push(index),
    {
        let ring_len = self.current().len();
        if index >= ring_len {
            return Click::Miss;
        }
        let leaf_action = {
            let node = &self.current()[index];
            if node.children.len() == 0 {
                match &node.action {
                    Some(action) => Some(Some(action.duplicate())),
                    None => Some(None),
                }
            } else {
                None
            }
        };
        match leaf_action {
            Some(Some(action)) => Click::Action(action),
            Some(None) => Click::Miss,
            None => {
                self.path.push(index);
                Click::Expanded
            },
        }
    }
}

/// Picking a category on ring 1 puts that category's leaves on screen.
pub proof fn law_expanding_shows_the_children(before: RingModel, after: RingModel, index: usize)
    requires
        before.wf(),
        before.path().len() == 0,
        index < before.menu().len(),
        after.menu() == before.menu(),
        after.path() == before.path().push(index),
    ensures
        after.ring() == before.menu()[index as int].children@,
{
}

/// What the overlay window is told, already reduced to what the decisions
/// need: the hit-tested sector under the pointer is computed by the renderer.
#[derive(Debug)]
pub enum OverlayEvent {
    /// Show the window, switching first to a newly handed-over menu if any.
    Show(Option<RingModel>),
    /// The pointer moved; the sector under it, if any.
    Hover(Option<usize>),
    /// The left button was released; the sector under it, if any.
    Release(Option<usize>),
    /// The pointer left the window.
    Leave,
    /// Escape was pressed, or the app asked the window to hide.
    Hide,
    /// The window is being closed or destroyed.
    Close,
}

/// What the window has to do after an event.
#[derive(Debug)]
pub enum OverlayEffect {
    Nothing,
    /// Repaint the ring (the highlighted sector or the ring itself changed).
    Redraw,
    /// Put the window on screen.
    ShowWindow,
    /// Hand this action to the app, then hide the window.
    Choose(MenuAction),
    /// Take the window off screen.
    HideWindow,
    /// Stop the window's message loop.
    Quit,
}

/// The overlay window's state: the ring model and the highlighted sector.
#[derive(Debug)]
pub struct OverlayState {
    pub ring: RingModel,
    pub active: Option<usize>,
}

impl OverlayState {
    pub fn new(ring: RingModel) -> (r: Self)
        requires
            ring.wf(),
        ensures
            r.ring == ring,
            r.active is None,
    {
        OverlayState { ring, active: None }
    }

    /// Decides what an event does to the state and what the window must do.
    pub fn step(&mut self, event: OverlayEvent) -> (effect: OverlayEffect)
        requires
            old(self).ring.wf(),
            event matches OverlayEvent::Show(Some(m)) ==> m.wf(),
        ensures
            final(self).ring.wf(),
            match event {
                OverlayEvent::Show(pending) => effect is ShowWindow && match pending {
                    Some(m) => final(self).ring == m && final(self).active is None,
                    None => final(self).ring == old(self).ring && final(self).active == old(self).active,
                },
                OverlayEvent::Hover(hit) => final(self).ring == old(self).ring
                    && final(self).active == hit
                    && (if hit == old(self).active { effect is Nothing } else { effect is Redraw }),
                OverlayEvent::Release(None) => *final(self) == *old(self) && effect is Nothing,
                OverlayEvent::Release(Some(index)) => final(self).ring.menu() == old(self).ring.menu() && (
                    if index >= old(self).ring.ring().len() {
                        final(self).ring.path() == old(self).ring.path()
                            && final(self).active == old(self).active && effect is Nothing
                    } else if old(self).ring.ring()[index as int].children@.len() > 0 {
                        final(self).ring.path() == old(self).ring.path().push(index)
                            && final(self).active is None && effect is Redraw
                    } else {
                        final(self).ring.path() == old(self).ring.path()
                            && final(self).active == old(self).active
                            && match action_view(old(self).ring.ring()[index as int].action) {
                                Some(a) => effect matches OverlayEffect::Choose(got) && got@ == a,
                                None => effect is Nothing,
                            }
                    }),
                OverlayEvent::Leave => final(self).ring == old(self).ring && final(self).active is None
                    && (if old(self).active is Some { effect is Redraw } else { effect is Nothing }),
                OverlayEvent::Hide => *final(self) == *old(self) && effect is HideWindow,
                OverlayEvent::Close => *final(self) == *old(self) && effect is Quit,
            },
    {
        match event {
            OverlayEvent::Show(pending) => {
                match pending {
                    Some(m) => {
                        self.ring = m;
                        self.active = None;
                    },
                    None => {},
                }
                OverlayEffect::ShowWindow
            },
            OverlayEvent::Hover(hit) => {
                let same = match (hit, self.active) {
                    (Some(a), Some(b)) => a == b,
                    (None, None) => true,
                    _ => false,
                };
                self.active = hit;
                if same {
                    OverlayEffect::Nothing
                } else {
                    OverlayEffect::Redraw
                }
            },
            OverlayEvent::Release(hit) => {
                match hit {
                    None => OverlayEffect::Nothing,
                    Some(index) => {
                        match self.ring.click(index) {
                            Click::Expanded => {
                                self.active = None;
                                OverlayEffect::Redraw
                            },
                            Click::Action(action) => OverlayEffect::Choose(action),
                            Click::Miss => OverlayEffect::Nothing,
                        }
                    },
                }
            },
            OverlayEvent::Leave => {
                let was = self.active.is_some();
                self.active = None;
                if was {
                    OverlayEffect::Redraw
                } else {
                    OverlayEffect::Nothing
                }
            },
            OverlayEvent::Hide => OverlayEffect::HideWindow,
            OverlayEvent::Close => OverlayEffect::Quit,
        }
    }
}

/// `n / 2` rounded towards zero, as Rust's integer division does.
pub open spec fn half(n: int) -> int {
    if n >= 0 { n / 2 } else { -((-n) / 2) }
}

/// Top-left corner that centres a `size` square on the cursor.
pub fn centered_origin(cursor_x: i32, cursor_y: i32, size: i32) -> (r: (i32, i32))
    requires
        i32::MIN <= cursor_x - half(size as int) <= i32::MAX,
        i32::MIN <= cursor_y - half(size as int) <= i32::MAX,
    ensures
        r.0 == cursor_x - half(size as int),
        r.1 == cursor_y - half(size as int),
{
    (cursor_x - size / 2, cursor_y - size / 2)
}

/// The signed 16-bit client coordinates packed in a mouse message's `lparam`:
/// x in the low word, y in the next one.
pub fn point_from_lparam(lparam: isize) -> (r: (i16, i16))
    ensures
        r.0 == lparam as i16,
        r.1 == (lparam >> 16) as i16,
{
    let x = lparam as i16;
    let y = (lparam >> 16) as i16;
    (x, y)
}

} // verus!
