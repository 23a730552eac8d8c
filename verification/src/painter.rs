//! Colors and the drawing objects of the window.

use vstd::prelude::*;

verus! {

/// A color of the window system: blue, green and red in the three low
/// bytes of a word, from high to low.
pub open spec fn rgb_word(r: u8, g: u8, b: u8) -> u32 {
    (b as u32 * 0x1_0000 + g as u32 * 0x100 + r as u32) as u32
}

/// A color with an alpha value in the high byte.
pub open spec fn rgba_word(r: u8, g: u8, b: u8, a: u8) -> u32 {
    (a as u32 * 0x100_0000 + b as u32 * 0x1_0000 + g as u32 * 0x100 + r as u32) as u32
}

pub fn rgb(r: u8, g: u8, b: u8) -> (c: u32)
    ensures
        c == rgb_word(r, g, b),
{
    (b as u32) * 0x1_0000 + (g as u32) * 0x100 + (r as u32)
}

pub fn rgba(r: u8, g: u8, b: u8, a: u8) -> (c: u32)
    ensures
        c == rgba_word(r, g, b, a),
{
    (a as u32) * 0x100_0000 + (b as u32) * 0x1_0000 + (g as u32) * 0x100 + (r as u32)
}

/// The color of the window's background.
pub const BACKGROUND: (u8, u8, u8) = (32, 32, 32);

/// The color of text.
pub const TEXT_COLOR: (u8, u8, u8) = (0xff, 0xff, 0xff);

/// A drawing object of the window system that is deleted once.
pub struct PaintObject {
    held: bool,
}

impl PaintObject {
    pub closed spec fn held(&self) -> bool {
        self.held
    }

    /// Wraps an object handle; a null handle holds nothing.
    pub fn from(valid: bool) -> (o: Self)
        ensures
            o.held() == valid,
    {
        Self { held: valid }
    }

    pub fn null() -> (o: Self)
        ensures
            !o.held(),
    {
        Self { held: false }
    }

    /// Lets go of the object. The answer says whether the object is to be
    /// deleted: it is, the first time.
    pub fn delete(&mut self) -> (delete: bool)
        ensures
            delete == old(self).held(),
            !final(self).held(),
    {
        let delete = self.held;
        self.held = false;
        delete
    }

    pub fn is_null(&self) -> (r: bool)
        ensures
            r == !self.held(),
    {
        !self.held
    }
}

/// What the painter holds between the begin and the end of a paint.
pub struct Painter {
    pub attached: bool,
    pub painting: bool,
    pub background: PaintObject,
}

impl Painter {
    pub fn new() -> (p: Self)
        ensures
            !p.attached,
            !p.painting,
            !p.background.held(),
    {
        Self { attached: false, painting: false, background: PaintObject::null() }
    }

    /// Gives up what the painter holds. The answer says whether the
    /// background brush is to be deleted.
    pub fn dispose(&mut self) -> (delete: bool)
        ensures
            !final(self).attached,
            final(self).painting == old(self).painting,
            delete == (old(self).attached && old(self).background.held()),
            final(self).background.held() == (!old(self).attached && old(self).background.held()),
    {
        if self.attached {
            let delete = self.background.delete();
            self.attached = false;
            delete
        } else {
            false
        }
    }

    /// Begins a paint. The answer says whether the background brush has to
    /// be created: it has, the first time.
    pub fn begin(&mut self) -> (create_brush: bool)
        ensures
            final(self).attached,
            final(self).painting,
            final(self).background.held(),
            create_brush == !old(self).background.held(),
    {
        let create_brush = self.background.is_null();
        if create_brush {
            self.background = PaintObject::from(true);
        }
        self.painting = true;
        self.attached = true;
        create_brush
    }

    /// Ends a paint.
    pub fn end(&mut self)
        ensures
            !final(self).painting,
            final(self).attached == old(self).attached,
            final(self).background == old(self).background,
    {
        self.painting = false;
    }
}

} // verus!
