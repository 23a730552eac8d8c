//! Path normalization, file times and plain geometry.

use vstd::prelude::*;
use vstd::string::*;
use crate::text::push_char;

verus! {

/// A path with every backslash turned into a forward slash.
pub open spec fn slashified(path: Seq<char>) -> Seq<char> {
    Seq::new(path.len(), |i: int| if path[i] == '\\' { '/' } else { path[i] })
}

pub fn slashify_path(path: &str) -> (s: String)
    ensures
        s@ == slashified(path@),
{
    let mut s = String::new();
    for c in it: path.chars()
        invariant
            it.seq() == path@,
            s@ == slashified(path@.take(it.index() as int)),
    {
        let ghost before = s@;
        if c == '\\' {
            push_char(&mut s, '/');
        } else {
            push_char(&mut s, c);
        }
        assert(s@ =~= slashified(path@.take(it.index() + 1)));
    }
    assert(path@.take(path@.len() as int) =~= path@);
    s
}

/// A modification time given in seconds since the Unix epoch, in whole
/// minutes: the resolution at which the cache compares files.
pub fn file_time_minutes(seconds: u64) -> (minutes: i64)
    ensures
        minutes == seconds / 60,
{
    (seconds / 60) as i64
}

/// Width and height of a rectangular area.
#[derive(Clone, Copy, Debug, PartialEq, Eq, Structural)]
pub struct Size {
    pub width: i32,
    pub height: i32,
}

impl Default for Size {
    fn default() -> (s: Self)
        ensures
            s == (Size { width: 0, height: 0 }),
    {
        Size { width: 0, height: 0 }
    }
}

impl Size {
    pub fn new(width: i32, height: i32) -> (s: Self)
        ensures
            s == (Size { width, height }),
    {
        Self { width, height }
    }

    pub fn zero(&mut self)
        ensures
            *final(self) == (Size { width: 0, height: 0 }),
    {
        self.set(0, 0);
    }

    pub fn set(&mut self, width: i32, height: i32)
        ensures
            *final(self) == (Size { width, height }),
    {
        self.width = width;
        self.height = height;
    }

    /// Grows the size by the given amounts, which may be negative.
    pub fn add(&mut self, width: i32, height: i32)
        requires
            i32::MIN <= old(self).width + width <= i32::MAX,
            i32::MIN <= old(self).height + height <= i32::MAX,
        ensures
            final(self).width == old(self).width + width,
            final(self).height == old(self).height + height,
    {
        self.width = self.width + width;
        self.height = self.height + height;
    }

    pub fn add_size(&mut self, size: &Size)
        requires
            i32::MIN <= old(self).width + size.width <= i32::MAX,
            i32::MIN <= old(self).height + size.height <= i32::MAX,
        ensures
            final(self).width == old(self).width + size.width,
            final(self).height == old(self).height + size.height,
    {
        self.width = self.width + size.width;
        self.height = self.height + size.height;
    }

    /// The componentwise difference `a - b`.
    pub fn diff(a: &Size, b: &Size) -> (d: Size)
        requires
            i32::MIN <= a.width - b.width <= i32::MAX,
            i32::MIN <= a.height - b.height <= i32::MAX,
        ensures
            d.width == a.width - b.width,
            d.height == a.height - b.height,
    {
        Size::new(a.width - b.width, a.height - b.height)
    }

    pub fn equals(&self, sz: &Size) -> (r: bool)
        ensures
            r == (*self == *sz),
    {
        self.width == sz.width && self.height == sz.height
    }
}

/// A rectangle given by its edges.
#[derive(Clone, Copy, Debug, PartialEq, Eq, Structural)]
pub struct Rect {
    pub left: i32,
    pub top: i32,
    pub right: i32,
    pub bottom: i32,
}

impl Default for Rect {
    fn default() -> (r: Self)
        ensures
            r == (Rect { left: 0, top: 0, right: 0, bottom: 0 }),
    {
        Rect { left: 0, top: 0, right: 0, bottom: 0 }
    }
}

impl Rect {
    pub fn new(left: i32, top: i32, right: i32, bottom: i32) -> (r: Self)
        ensures
            r == (Rect { left, top, right, bottom }),
    {
        Self { left, top, right, bottom }
    }

    pub fn zero(&mut self)
        ensures
            *final(self) == (Rect { left: 0, top: 0, right: 0, bottom: 0 }),
    {
        self.set(0, 0, 0, 0);
    }

    pub fn set(&mut self, left: i32, top: i32, right: i32, bottom: i32)
        ensures
            *final(self) == (Rect { left, top, right, bottom }),
    {
        self.left = left;
        self.top = top;
        self.right = right;
        self.bottom = bottom;
    }

    /// The extent of the rectangle: right minus left, bottom minus top.
    pub fn size(&self) -> (s: Size)
        requires
            i32::MIN <= self.right - self.left <= i32::MAX,
            i32::MIN <= self.bottom - self.top <= i32::MAX,
        ensures
            s.width == self.right - self.left,
            s.height == self.bottom - self.top,
    {
        Size::new(self.right - self.left, self.bottom - self.top)
    }

    pub fn equals(&self, rect: &Rect) -> (r: bool)
        ensures
            r == (*self == *rect),
    {
        self.left == rect.left && self.top == rect.top && self.right == rect.right
            && self.bottom == rect.bottom
    }
}

} // verus!
