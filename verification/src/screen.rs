use vstd::prelude::*;

verus! {

/// Common behaviour of everything a screen can show.
pub trait Draw {
    fn draw(&self);
}

/// A screen holding any mix of drawable components.
pub struct Screen {
    pub components: Vec<Box<dyn Draw>>,
}

/// A clickable button.
pub struct Button {
    pub width: u32,
    pub height: u32,
    pub label: String,
}

impl Draw for Button {
    fn draw(&self) {
    }
}

impl Screen {
    /// Draws every component, in order.
    pub fn run(&self) {
        let mut i: usize = 0;
        while i < self.components.len()
            decreases self.components@.len() - i,
        {
            self.components[i].draw();
            i += 1;
        }
    }
}

} // verus!
