//! A sprite that the F key switches between its own size and the size of
//! the window.
use vstd::prelude::*;

verus! {

/// Whether a sprite is shown at window size, and the size it had before.
#[derive(Clone, Copy, Debug)]
pub struct FullscreenSprite<S> {
    pub is_fullscreen: bool,
    pub original_size: Option<S>,
}

impl<S> FullscreenSprite<S> {
    /// The sprite after a frame in which the toggle key was, or was not, just
    /// pressed.
    pub open spec fn after_toggle_key(self, just_pressed: bool) -> Self {
        FullscreenSprite {
            is_fullscreen: self.is_fullscreen != just_pressed,
            original_size: self.original_size,
        }
    }

    /// The size the sprite is drawn at in a window of size `window_size`.
    pub open spec fn shown_size(self, window_size: S) -> Option<S> {
        if self.is_fullscreen {
            Some(window_size)
        } else {
            self.original_size
        }
    }
}

impl<S: Copy> FullscreenSprite<S> {
    /// Remembers the size the sprite has when it is added.
    pub fn record_original_size(&mut self, custom_size: Option<S>)
        ensures
            final(self).original_size == custom_size,
            final(self).is_fullscreen == old(self).is_fullscreen,
    {
        self.original_size = custom_size;
    }

    /// Switches between window size and the sprite's own size.
    pub fn toggle(&mut self)
        ensures
            *final(self) == old(self).after_toggle_key(true),
            final(self).is_fullscreen == !old(self).is_fullscreen,
            final(self).original_size == old(self).original_size,
    {
        self.is_fullscreen = !self.is_fullscreen;
    }

    /// Switches the sprite when the toggle key was just pressed, and leaves
    /// it as it is otherwise.
    pub fn on_toggle_key(&mut self, just_pressed: bool)
        ensures
            *final(self) == old(self).after_toggle_key(just_pressed),
            just_pressed ==> final(self).is_fullscreen == !old(self).is_fullscreen,
            !just_pressed ==> final(self).is_fullscreen == old(self).is_fullscreen,
            final(self).original_size == old(self).original_size,
    {
        if just_pressed {
            self.toggle();
        }
    }

    /// The size the sprite is drawn at in a window of size `window_size`.
    pub fn displayed_size(&self, window_size: S) -> (r: Option<S>)
        ensures
            r == self.shown_size(window_size),
            self.is_fullscreen ==> r == Some(window_size),
            !self.is_fullscreen ==> r == self.original_size,
    {
        if self.is_fullscreen {
            Some(window_size)
        } else {
            self.original_size
        }
    }
}

impl<S> Default for FullscreenSprite<S> {
    fn default() -> (r: Self)
        ensures
            !r.is_fullscreen,
            r.original_size is None,
    {
        FullscreenSprite { is_fullscreen: false, original_size: None }
    }
}

/// A press of the toggle key always flips the sprite between window size and
/// its own size, whatever its own size is, and never changes its own size.
pub proof fn lemma_press_flips<S>(sprite: FullscreenSprite<S>, window_size: S)
    ensures
        sprite.after_toggle_key(true).is_fullscreen == !sprite.is_fullscreen,
        sprite.after_toggle_key(true).original_size == sprite.original_size,
        !sprite.is_fullscreen ==> sprite.after_toggle_key(true).shown_size(window_size) == Some(
            window_size,
        ),
{
}

/// Pressing the toggle key twice brings the sprite back to where it was, and
/// a frame without a press changes nothing.
pub proof fn lemma_toggle_twice<S>(sprite: FullscreenSprite<S>)
    ensures
        sprite.after_toggle_key(true).after_toggle_key(true) == sprite,
        sprite.after_toggle_key(false) == sprite,
{
}

/// Toggling never loses the sprite's own size: whenever the sprite is not
/// fullscreen it is drawn at the size it was added with, and when it is
/// fullscreen it fills the window.
pub proof fn lemma_size_restored<S>(sprite: FullscreenSprite<S>, just_pressed: bool, window_size: S)
    ensures
        sprite.after_toggle_key(just_pressed).original_size == sprite.original_size,
        !sprite.after_toggle_key(just_pressed).is_fullscreen ==> sprite.after_toggle_key(
            just_pressed,
        ).shown_size(window_size) == sprite.original_size,
        sprite.after_toggle_key(just_pressed).is_fullscreen ==> sprite.after_toggle_key(
            just_pressed,
        ).shown_size(window_size) == Some(window_size),
{
}

} // verus!
