//! From mouse input to what the terminal does with it.

use vstd::prelude::*;

verus! {

#[derive(Debug)]
pub enum MouseButton {
    Left,
    Right,
    Middle,
}

#[derive(Debug)]
pub enum MouseInput {
    Move(usize, usize),
    /// The wheel turned by this many lines; up for a positive number.
    Scroll(isize),
    Pressed(MouseButton),
    Released(MouseButton),
}

#[derive(Debug)]
pub enum MouseEvent {
    /// Scroll by this many lines; up for a positive number.
    Scroll(isize),
    /// The input asks for nothing.
    NoEvent,
}

/// `lines` times `speed`, kept within what an `isize` holds.
pub open spec fn scaled(lines: int, speed: int) -> int {
    if lines * speed > isize::MAX {
        isize::MAX as int
    } else if lines * speed < isize::MIN {
        isize::MIN as int
    } else {
        lines * speed
    }
}

pub struct MouseManager {
    scroll_speed: usize,
}

impl Default for MouseManager {
    fn default() -> (r: MouseManager)
        ensures
            r.scroll_speed() == 1,
    {
        MouseManager { scroll_speed: 1 }
    }
}

impl MouseManager {
    /// How many lines one line of the wheel scrolls.
    pub closed spec fn scroll_speed(&self) -> usize {
        self.scroll_speed
    }

    pub fn set_scroll_speed(&mut self, speed: usize)
        ensures
            final(self).scroll_speed() == speed,
    {
        self.scroll_speed = speed;
    }

    /// The wheel scrolls by its lines times the scroll speed; nothing else
    /// that the mouse does concerns the terminal.
    pub fn handle_mouse(&mut self, event: MouseInput) -> (r: MouseEvent)
        ensures
            final(self).scroll_speed() == old(self).scroll_speed(),
            match event {
                MouseInput::Scroll(lines) => r matches MouseEvent::Scroll(n) && n == scaled(
                    lines as int,
                    old(self).scroll_speed() as int,
                ),
                _ => r is NoEvent,
            },
    {
        match event {
            MouseInput::Scroll(lines) => {
                let wide: i128 = lines as i128;
                let speed: i128 = self.scroll_speed as i128;
                assert(-0x8000_0000_0000_0000 <= wide <= 0x7fff_ffff_ffff_ffff);
                assert(0 <= speed <= 0xffff_ffff_ffff_ffff);
                assert(-0x8000_0000_0000_0000 * 0xffff_ffff_ffff_ffff <= wide * speed
                    <= 0x7fff_ffff_ffff_ffff * 0xffff_ffff_ffff_ffff) by (nonlinear_arith)
                    requires
                        -0x8000_0000_0000_0000 <= wide <= 0x7fff_ffff_ffff_ffff,
                        0 <= speed <= 0xffff_ffff_ffff_ffff,
                ;
                let product: i128 = wide * speed;
                let lines: isize = if product > isize::MAX as i128 {
                    isize::MAX
                } else if product < isize::MIN as i128 {
                    isize::MIN
                } else {
                    product as isize
                };
                MouseEvent::Scroll(lines)
            },
            _ => MouseEvent::NoEvent,
        }
    }
}

} // verus!
