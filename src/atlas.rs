use vstd::prelude::*;

use crate::config::Config;

verus! {

/// An axis-aligned rectangle in atlas pixel space, `[x0, x1) x [y0, y1)`.
#[derive(Clone, Copy, Debug, PartialEq, Eq, Structural)]
pub struct AtlasRect {
    pub x0: u32,
    pub y0: u32,
    pub x1: u32,
    pub y1: u32,
}

/// Two rectangles share no pixel.
pub open spec fn disjoint(a: AtlasRect, b: AtlasRect) -> bool {
    a.x1 <= b.x0 || b.x1 <= a.x0 || a.y1 <= b.y0 || b.y1 <= a.y0
}

/// The rectangle of size `w x h` whose top-left corner is `(x, y)`.
pub open spec fn rect_at(x: int, y: int, w: int, h: int) -> AtlasRect {
    AtlasRect { x0: x as u32, y0: y as u32, x1: (x + w) as u32, y1: (y + h) as u32 }
}

/// The abstract state of a shelf allocator.
pub ghost struct AtlasModel {
    pub width: int,
    pub height: int,
    /// Horizontal position where the next image of the open shelf goes.
    pub cursor_x: int,
    /// Top of the open shelf.
    pub shelf_y: int,
    /// Height of the tallest image on the open shelf.
    pub shelf_height: int,
    /// Every rectangle handed out, in order of allocation.
    pub rects: Seq<AtlasRect>,
}

impl AtlasModel {
    /// A rectangle lies inside the atlas.
    pub open spec fn inside(self, r: AtlasRect) -> bool {
        r.x0 <= r.x1 && r.x1 <= self.width && r.y0 <= r.y1 && r.y1 <= self.height
    }

    /// A rectangle lies on a closed shelf, or on the open one left of the cursor.
    pub open spec fn behind_cursor(self, r: AtlasRect) -> bool {
        r.y1 <= self.shelf_y || (self.shelf_y <= r.y0 && r.y1 <= self.shelf_y
            + self.shelf_height && r.x1 <= self.cursor_x)
    }

    pub open spec fn wf(self) -> bool {
        &&& 0 <= self.cursor_x <= self.width <= u32::MAX
        &&& 0 <= self.shelf_y
        &&& 0 <= self.shelf_height
        &&& self.shelf_y + self.shelf_height <= self.height <= u32::MAX
        &&& forall|i: int| 0 <= i < self.rects.len() ==> self.inside(#[trigger] self.rects[i])
        &&& forall|i: int| 0 <= i < self.rects.len() ==> self.behind_cursor(#[trigger] self.rects[i])
        &&& forall|i: int, j: int|
            0 <= i < self.rects.len() && 0 <= j < self.rects.len() && i != j ==> disjoint(
                #[trigger] self.rects[i],
                #[trigger] self.rects[j],
            )
    }

    /// The image fits on the open shelf, right of the cursor.
    pub open spec fn fits_on_shelf(self, w: int, h: int) -> bool {
        self.cursor_x + w <= self.width && self.shelf_y + h <= self.height
    }

    /// The image fits at the left end of a new shelf below the open one.
    pub open spec fn fits_below(self, w: int, h: int) -> bool {
        w <= self.width && self.shelf_y + self.shelf_height + h <= self.height
    }

    /// Where an image of size `w x h` goes, if anywhere.
    pub open spec fn place(self, w: int, h: int) -> Option<AtlasRect> {
        if self.fits_on_shelf(w, h) {
            Some(rect_at(self.cursor_x, self.shelf_y, w, h))
        } else if self.fits_below(w, h) {
            Some(rect_at(0, self.shelf_y + self.shelf_height, w, h))
        } else {
            None
        }
    }

    /// The state after an image of size `w x h` was placed.
    pub open spec fn allocate(self, w: int, h: int) -> AtlasModel {
        if self.fits_on_shelf(w, h) {
            AtlasModel {
                cursor_x: self.cursor_x + w,
                shelf_height: if h > self.shelf_height {
                    h
                } else {
                    self.shelf_height
                },
                rects: self.rects.push(rect_at(self.cursor_x, self.shelf_y, w, h)),
                ..self
            }
        } else if self.fits_below(w, h) {
            AtlasModel {
                cursor_x: w,
                shelf_y: self.shelf_y + self.shelf_height,
                shelf_height: h,
                rects: self.rects.push(rect_at(0, self.shelf_y + self.shelf_height, w, h)),
                ..self
            }
        } else {
            self
        }
    }
}

/// Allocating keeps the allocator well formed: every rectangle stays inside the
/// atlas and no two rectangles overlap.
pub proof fn lemma_allocate_wf(m: AtlasModel, w: int, h: int)
    requires
        m.wf(),
        0 <= w <= u32::MAX,
        0 <= h <= u32::MAX,
    ensures
        m.allocate(w, h).wf(),
        m.place(w, h) is Some ==> m.allocate(w, h).rects == m.rects.push(m.place(w, h)->0),
        m.place(w, h) is None ==> m.allocate(w, h) == m,
{
    let n = m.allocate(w, h);
    if m.place(w, h) is Some {
        let r = m.place(w, h)->0;
        assert(n.rects.last() == r);
        assert forall|i: int| 0 <= i < m.rects.len() implies disjoint(m.rects[i], r) && disjoint(
            r,
            m.rects[i],
        ) by {
            assert(m.behind_cursor(m.rects[i]));
            assert(m.inside(m.rects[i]));
        }
        assert forall|i: int| 0 <= i < n.rects.len() implies n.inside(#[trigger] n.rects[i])
            && n.behind_cursor(n.rects[i]) by {
            if i < m.rects.len() {
                assert(n.rects[i] == m.rects[i]);
                assert(m.behind_cursor(m.rects[i]));
                assert(m.inside(m.rects[i]));
            }
        }
        assert forall|i: int, j: int|
            0 <= i < n.rects.len() && 0 <= j < n.rects.len() && i != j implies disjoint(
            #[trigger] n.rects[i],
            #[trigger] n.rects[j],
        ) by {
            if i < m.rects.len() && j < m.rects.len() {
                assert(n.rects[i] == m.rects[i]);
                assert(n.rects[j] == m.rects[j]);
            } else if i < m.rects.len() {
                assert(n.rects[i] == m.rects[i]);
            } else {
                assert(n.rects[j] == m.rects[j]);
            }
        }
    }
}

/// An image wider or taller than the atlas itself is never placed.
pub proof fn lemma_oversize_fails(m: AtlasModel, w: int, h: int)
    requires
        m.wf(),
        w > m.width || h > m.height,
    ensures
        m.place(w, h) is None,
        m.allocate(w, h) == m,
{
}

/// Two images allocated one after the other get disjoint rectangles.
pub proof fn lemma_successive_disjoint(m: AtlasModel, w1: int, h1: int, w2: int, h2: int)
    requires
        m.wf(),
        0 <= w1 <= u32::MAX,
        0 <= h1 <= u32::MAX,
        0 <= w2 <= u32::MAX,
        0 <= h2 <= u32::MAX,
        m.place(w1, h1) is Some,
        m.allocate(w1, h1).place(w2, h2) is Some,
    ensures
        disjoint(m.place(w1, h1)->0, m.allocate(w1, h1).place(w2, h2)->0),
{
    let m1 = m.allocate(w1, h1);
    lemma_allocate_wf(m, w1, h1);
    lemma_allocate_wf(m1, w2, h2);
    let m2 = m1.allocate(w2, h2);
    assert(m2.rects[m.rects.len() as int] == m.place(w1, h1)->0);
    assert(m2.rects[m1.rects.len() as int] == m1.place(w2, h2)->0);
}

/// A shelf allocator over one fixed-size atlas texture: images are placed left
/// to right on the open shelf, and a new shelf is opened below the tallest
/// image of the open one when the row is full. Space is never freed one image
/// at a time.
pub struct BufferLayout2D {
    width: u32,
    height: u32,
    cursor_x: u32,
    shelf_y: u32,
    shelf_height: u32,
    textures: Vec<AtlasRect>,
}

impl View for BufferLayout2D {
    type V = AtlasModel;

    closed spec fn view(&self) -> AtlasModel {
        AtlasModel {
            width: self.width as int,
            height: self.height as int,
            cursor_x: self.cursor_x as int,
            shelf_y: self.shelf_y as int,
            shelf_height: self.shelf_height as int,
            rects: self.textures@,
        }
    }
}

impl BufferLayout2D {
    /// An empty atlas of the texture size that `config` gives.
    pub fn new(config: &Config) -> (r: BufferLayout2D)
        ensures
            r@.wf(),
            r@.width == config.texture_width,
            r@.height == config.texture_height,
            r@.cursor_x == 0,
            r@.shelf_y == 0,
            r@.shelf_height == 0,
            r@.rects == Seq::<AtlasRect>::empty(),
    {
        BufferLayout2D {
            width: config.texture_width,
            height: config.texture_height,
            cursor_x: 0,
            shelf_y: 0,
            shelf_height: 0,
            textures: Vec::new(),
        }
    }

    /// Width of the atlas in pixels.
    pub fn width(&self) -> (r: u32)
        ensures
            r == self@.width,
    {
        self.width
    }

    /// Height of the atlas in pixels.
    pub fn height(&self) -> (r: u32)
        ensures
            r == self@.height,
    {
        self.height
    }

    /// The rectangles handed out so far, in order of allocation.
    pub fn allocated(&self) -> (r: &Vec<AtlasRect>)
        ensures
            r@ == self@.rects,
    {
        &self.textures
    }

    /// Where an image of `width x height` pixels would go; `None` when no
    /// placement leaves it inside the atlas.
    pub fn search(&self, width: u32, height: u32) -> (r: Option<AtlasRect>)
        requires
            self@.wf(),
        ensures
            r == self@.place(width as int, height as int),
    {
        if width <= self.width - self.cursor_x && height <= self.height - self.shelf_y {
            Some(
                AtlasRect {
                    x0: self.cursor_x,
                    y0: self.shelf_y,
                    x1: self.cursor_x + width,
                    y1: self.shelf_y + height,
                },
            )
        } else if width <= self.width && height <= self.height - self.shelf_y - self.shelf_height {
            let top = self.shelf_y + self.shelf_height;
            Some(AtlasRect { x0: 0, y0: top, x1: width, y1: top + height })
        } else {
            None
        }
    }

    /// Places an image of `width x height` pixels and records its rectangle;
    /// `None`, with the atlas unchanged, when it does not fit.
    pub fn search_and_allocate(&mut self, width: u32, height: u32) -> (r: Option<AtlasRect>)
        requires
            old(self)@.wf(),
        ensures
            r == old(self)@.place(width as int, height as int),
            final(self)@ == old(self)@.allocate(width as int, height as int),
            final(self)@.wf(),
    {
        proof {
            lemma_allocate_wf(self@, width as int, height as int);
        }
        let found = self.search(width, height);
        match found {
            Some(rect) => {
                if width <= self.width - self.cursor_x && height <= self.height - self.shelf_y {
                    self.cursor_x = self.cursor_x + width;
                    if height > self.shelf_height {
                        self.shelf_height = height;
                    }
                } else {
                    self.shelf_y = self.shelf_y + self.shelf_height;
                    self.shelf_height = height;
                    self.cursor_x = width;
                }
                self.textures.push(rect);
                Some(rect)
            },
            None => None,
        }
    }

    /// Forgets every allocation; the whole atlas is free again.
    pub fn reset(&mut self)
        requires
            old(self)@.wf(),
        ensures
            final(self)@.wf(),
            final(self)@ == (AtlasModel {
                cursor_x: 0,
                shelf_y: 0,
                shelf_height: 0,
                rects: Seq::<AtlasRect>::empty(),
                ..old(self)@
            }),
    {
        self.cursor_x = 0;
        self.shelf_y = 0;
        self.shelf_height = 0;
        self.textures.clear();
    }
}

} // verus!
