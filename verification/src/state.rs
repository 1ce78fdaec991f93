//! The viewer's state: the books found, which one is shown, whether the
//! information overlay is on, the screen orientation, and the cover and
//! screen frame computed for the current book and orientation.

use crate::cover::{cover_fails, cover_matches, retrieve_cover, texts_view};
use crate::orientation::{backward_of, forward_of, Orientation};
use crate::paths::{path_file_name, path_file_name_of};
use crate::text::{debug_quoted, debug_text, decimal, decimal_text, kept_by_debug};
use crate::picture::{
    bytes_per_pixel, fill_fits, fill_resized, filled, gray_pixels, half_turn, lemma_turns_move_pixels, quarter_turn, turned_by, rotate_half, rotate_quarter,
    rotate_three_quarters, three_quarter_turn, to_gray, ColorLayout, FrameModel, GrayFrame, ImageModel, Picture,
};
use vstd::prelude::*;

verus! {

/// A screen size in pixels.
#[derive(Clone, Copy, Debug, PartialEq, Eq, Structural)]
pub struct Size {
    pub width: u32,
    pub height: u32,
}

/// The model of the viewer's state.
pub struct StateView {
    pub search_dir: Seq<char>,
    pub books: Seq<Seq<char>>,
    pub pos: nat,
    pub overlay: bool,
    pub orientation: Orientation,
    /// The cached cover, if one is cached.
    pub cover_image: Option<ImageModel>,
    /// The cached screen frame, if one is cached.
    pub cover_image_buf: Option<FrameModel>,
}

/// The position of the last book, or 0 when there is none.
pub open spec fn last_pos(len: nat) -> nat {
    if len == 0 {
        0
    } else {
        (len - 1) as nat
    }
}

/// The position after cycling forward: the next book, or the first after
/// the last.
pub open spec fn pos_after_forward(pos: nat, len: nat) -> nat {
    if pos + 1 > last_pos(len) {
        0
    } else {
        pos + 1
    }
}

/// The position after cycling backward: the previous book, except that
/// a step that would reach the first book lands on the last one instead.
pub open spec fn pos_after_backward(pos: nat, len: nat) -> nat {
    let p: nat = if pos == 0 {
        0
    } else {
        (pos - 1) as nat
    };
    if p == 0 {
        last_pos(len)
    } else {
        p
    }
}

/// The position after `k` forward steps.
pub open spec fn pos_after_forward_n(pos: nat, len: nat, k: nat) -> nat
    decreases k,
{
    if k == 0 {
        pos
    } else {
        pos_after_forward(pos_after_forward_n(pos, len, (k - 1) as nat), len)
    }
}

/// The state after switching the overlay.
pub open spec fn after_toggle(v: StateView) -> StateView {
    StateView { overlay: !v.overlay, ..v }
}

/// The state after turning to the next orientation backward.
pub open spec fn after_turn_backward(v: StateView) -> StateView {
    StateView { orientation: backward_of(v.orientation), cover_image_buf: None, ..v }
}

/// The state after turning to the next orientation forward.
pub open spec fn after_turn_forward(v: StateView) -> StateView {
    StateView { orientation: forward_of(v.orientation), cover_image_buf: None, ..v }
}

/// The state after stepping back to the previous book.
pub open spec fn after_step_backward(v: StateView) -> StateView {
    StateView {
        pos: pos_after_backward(v.pos, v.books.len()),
        cover_image: None,
        cover_image_buf: None,
        ..v
    }
}

/// The state after stepping on to the next book.
pub open spec fn after_step_forward(v: StateView) -> StateView {
    StateView {
        pos: pos_after_forward(v.pos, v.books.len()),
        cover_image: None,
        cover_image_buf: None,
        ..v
    }
}

/// The state after `k` steps on.
pub open spec fn after_steps_forward(v: StateView, k: nat) -> StateView
    decreases k,
{
    if k == 0 {
        v
    } else {
        after_step_forward(after_steps_forward(v, (k - 1) as nat))
    }
}

impl StateView {
    /// The position names a book, or is 0 when there are none.
    pub open spec fn pos_valid(self) -> bool {
        self.pos == 0 || self.pos < self.books.len()
    }

    /// The book at the current position, if there is one.
    pub open spec fn current_book(self) -> Option<Seq<char>> {
        if self.pos < self.books.len() {
            Some(self.books[self.pos as int])
        } else {
            None
        }
    }
}

/// How the cover cached after fetching it relates to the state before and
/// to what `read_book` may give: a cached cover stays; else, without a
/// current book nothing is cached; else the cover retrieved from what
/// `read_book` gave for the book's path is cached, or nothing where reading
/// or retrieving failed.
pub open spec fn cover_fetched<F: FnOnce(&str) -> Option<Vec<u8>>>(
    before: StateView,
    after: Option<ImageModel>,
    read_book: F,
) -> bool {
    match before.cover_image {
        Some(c) => after == Some(c),
        None => match before.current_book() {
            None => after is None,
            Some(book) => match after {
                Some(cover) => exists|path: &str, data: Option<Vec<u8>>|
                    #[trigger] read_book.ensures((path,), data) && path@ == book && (data matches Some(d)
                        && cover_matches(book, d@, cover)),
                None => exists|path: &str, data: Option<Vec<u8>>|
                    #[trigger] read_book.ensures((path,), data) && path@ == book && (data matches Some(d)
                        ==> cover_fails(book, d@)),
            },
        },
    }
}

/// What a call of `State::cover_image` does, from the state `before` to the
/// state `after`, returning the cover `r`: only the cached cover may change,
/// and it is what the call returns; it is fetched as `cover_fetched` says;
/// and a cover has one of the image crate's layouts.
pub open spec fn cover_call<F: FnOnce(&str) -> Option<Vec<u8>>>(
    before: StateView,
    after: StateView,
    r: Option<ImageModel>,
    read_book: F,
) -> bool {
    &&& after == (StateView { cover_image: after.cover_image, ..before })
    &&& after.cover_image == r
    &&& cover_fetched(before, r, read_book)
    &&& (r matches Some(c) ==> c.layout != ColorLayout::Other)
}

/// What a call of `State::cover_image_buf` for a screen of `size` does, from
/// the state `before` to the state `after`, returning the frame `r`: only
/// the cached cover and frame may change, and the frame is what the call
/// returns, one byte per pixel, and comes from a cover with pixels. A
/// cached frame is returned as it is. Otherwise the cover is fetched as
/// `cover_fetched` says; there is a frame exactly when that cover has
/// pixels; and the frame is `frame_of` the orientation, the cover and the
/// size, no larger than the screen, and exactly the screen's size where the
/// scaled sides fit in `u32`.
pub open spec fn frame_call<F: FnOnce(&str) -> Option<Vec<u8>>>(
    before: StateView,
    after: StateView,
    r: Option<FrameModel>,
    size: Size,
    read_book: F,
) -> bool {
    &&& after == (StateView {
        cover_image: after.cover_image,
        cover_image_buf: after.cover_image_buf,
        ..before
    })
    &&& after.cover_image_buf == r
    &&& (r matches Some(f) ==> f.pixels.len() == f.width * f.height)
    &&& (r is Some ==> (after.cover_image matches Some(c) && c.width > 0 && c.height > 0))
    &&& (before.cover_image_buf is Some ==> after == before)
    &&& (before.cover_image_buf is None ==> {
        &&& cover_fetched(before, after.cover_image, read_book)
        &&& (r is Some <==> (after.cover_image matches Some(c) && c.width > 0 && c.height > 0))
        &&& (r matches Some(f) ==> after.cover_image matches Some(c) && {
            let t = turned(before.orientation, c);
            &&& f == frame_of(before.orientation, c, size)
            &&& f.width <= size.width
            &&& f.height <= size.height
            &&& (fill_fits(t.width, t.height, size.width, size.height) ==> f.width == size.width
                && f.height == size.height)
        })
    })
}

/// The cover turned by the orientation: a quarter clockwise for 90°, half
/// round for 180°, three quarters clockwise for 270°.
pub open spec fn turned(o: Orientation, cover: ImageModel) -> ImageModel {
    match o {
        Orientation::Portrait0Deg => cover,
        Orientation::Landscape90Deg => quarter_turn(cover),
        Orientation::Portrait180Deg => half_turn(cover),
        Orientation::Landscape270Deg => three_quarter_turn(cover),
    }
}

/// The screen frame for a cover in an orientation: the turned cover scaled
/// to fill the screen, cropped to it, and converted to grayscale.
pub open spec fn frame_of(o: Orientation, cover: ImageModel, size: Size) -> FrameModel {
    let f = filled(turned(o, cover), size.width, size.height);
    FrameModel { width: f.width, height: f.height, pixels: gray_pixels(f) }
}

/// The overlay's line for a position and a book name: `pos: `, the
/// position in decimal, `, book: `, and the name in its `Debug` form.
pub open spec fn overlay_line(pos: nat, book: Seq<char>) -> Seq<char> {
    "pos: "@ + decimal(pos) + ", book: "@ + debug_quoted(book)
}

/// The name the overlay shows for the current book: the file name of its
/// path, or `<unavailable>` where there is no current book or no file name.
pub open spec fn shown_book_name(v: StateView) -> Seq<char> {
    match v.current_book() {
        Some(book) => match path_file_name_of(book) {
            Some(name) => name,
            None => "<unavailable>"@,
        },
        None => "<unavailable>"@,
    }
}

/// What happens to the viewer: the screen was set up, shown or needs
/// repainting; a page key, the menu key or another key was pressed; the
/// viewer is asked to exit; the timer that steps on to the next book
/// fired; or anything else.
#[derive(Clone, Copy, Debug, PartialEq, Eq, Structural)]
pub enum ViewerEvent {
    Init,
    Show,
    Repaint,
    Prev,
    Next,
    Menu,
    OtherKey,
    Exit,
    CycleTimer,
    Ignored,
}

/// What the viewer does after an event: set up the display and draw,
/// draw, stop, or nothing.
#[derive(Clone, Copy, Debug, PartialEq, Eq, Structural)]
pub enum ViewerAction {
    Setup,
    Render,
    Stop,
    Idle,
}

/// The state after an event and the action it calls for. The page keys
/// turn the screen while the overlay is on and step through the books
/// otherwise; the menu key switches the overlay; the timer steps on; any
/// other key, and the request to exit, stop the viewer.
pub open spec fn event_outcome(v: StateView, e: ViewerEvent) -> (StateView, ViewerAction) {
    match e {
        ViewerEvent::Init => (v, ViewerAction::Setup),
        ViewerEvent::Show | ViewerEvent::Repaint => (v, ViewerAction::Render),
        ViewerEvent::Prev => (
            if v.overlay {
                after_turn_backward(v)
            } else {
                after_step_backward(v)
            },
            ViewerAction::Render,
        ),
        ViewerEvent::Next => (
            if v.overlay {
                after_turn_forward(v)
            } else {
                after_step_forward(v)
            },
            ViewerAction::Render,
        ),
        ViewerEvent::Menu => (after_toggle(v), ViewerAction::Render),
        ViewerEvent::OtherKey | ViewerEvent::Exit => (v, ViewerAction::Stop),
        ViewerEvent::CycleTimer => (after_step_forward(v), ViewerAction::Render),
        ViewerEvent::Ignored => (v, ViewerAction::Idle),
    }
}

/// The viewer's state.
pub struct State {
    /// The directory the books were searched in (not recursively).
    search_dir: String,
    /// The books found in `search_dir`.
    books: Vec<String>,
    /// The position in `books` of the book whose cover is shown.
    pos: usize,
    /// Whether the overlay with state information is shown.
    overlay: bool,
    /// The screen orientation.
    orientation: Orientation,
    /// The current book's cover, computed on demand and dropped when the
    /// position changes.
    cover_image: Option<Picture>,
    /// The cover fitted to the screen, computed on demand and dropped when
    /// the position or the orientation changes.
    cover_image_buf: Option<GrayFrame>,
}

impl View for State {
    type V = StateView;

    closed spec fn view(&self) -> StateView {
        StateView {
            search_dir: self.search_dir@,
            books: texts_view(self.books@),
            pos: self.pos as nat,
            overlay: self.overlay,
            orientation: self.orientation,
            cover_image: match self.cover_image {
                Some(p) => Some(p@),
                None => None,
            },
            cover_image_buf: match self.cover_image_buf {
                Some(f) => Some(f@),
                None => None,
            },
        }
    }
}

impl State {
    #[verifier::type_invariant]
    spec fn inv(self) -> bool {
        &&& (self.pos == 0 || self.pos < self.books.len())
        &&& (self.cover_image_buf matches Some(f) ==> f.well_formed())
        &&& (self.cover_image matches Some(p) ==> p@.layout != ColorLayout::Other)
        &&& (self.cover_image_buf is Some ==> (self.cover_image matches Some(p) && p@.width > 0 && p@.height
            > 0))
    }

    /// A viewer over the books found in `search_dir`, showing the first one,
    /// upright, without the overlay.
    pub fn new(search_dir: String, books: Vec<String>) -> (s: Self)
        ensures
            s@ == (StateView {
                search_dir: search_dir@,
                books: texts_view(books@),
                pos: 0,
                overlay: false,
                orientation: Orientation::Portrait0Deg,
                cover_image: None,
                cover_image_buf: None,
            }),
    {
        State {
            search_dir,
            books,
            pos: 0,
            overlay: false,
            orientation: Orientation::default(),
            cover_image: None,
            cover_image_buf: None,
        }
    }

    /// The position of the book whose cover is shown.
    pub fn pos(&self) -> (p: usize)
        ensures
            p == self@.pos,
            self@.pos_valid(),
    {
        proof {
            use_type_invariant(self);
        }
        self.pos
    }

    /// Whether the overlay is shown.
    pub fn overlay(&self) -> (o: bool)
        ensures
            o == self@.overlay,
    {
        self.overlay
    }

    /// Switches the overlay on or off; returns whether it is now shown.
    pub fn toggle_overlay(&mut self) -> (o: bool)
        ensures
            o == !old(self)@.overlay,
            final(self)@ == after_toggle(old(self)@),
    {
        proof {
            use_type_invariant(&*self);
        }
        self.overlay = !self.overlay;
        self.overlay
    }

    /// The screen orientation.
    pub fn orientation(&self) -> (o: Orientation)
        ensures
            o == self@.orientation,
    {
        self.orientation
    }

    /// Turns to the next orientation backward (0° → 90° → 180° → 270° → 0°)
    /// and drops the screen frame, which was fitted to the old orientation.
    pub fn orientation_cycle_backward(&mut self) -> (o: Orientation)
        ensures
            o == backward_of(old(self)@.orientation),
            final(self)@ == after_turn_backward(old(self)@),
    {
        proof {
            use_type_invariant(&*self);
        }
        self.orientation = match self.orientation {
            Orientation::Portrait0Deg => Orientation::Landscape90Deg,
            Orientation::Landscape90Deg => Orientation::Portrait180Deg,
            Orientation::Portrait180Deg => Orientation::Landscape270Deg,
            Orientation::Landscape270Deg => Orientation::Portrait0Deg,
        };
        self.cover_image_buf = None;
        self.orientation
    }

    /// Turns to the next orientation forward (0° → 270° → 180° → 90° → 0°)
    /// and drops the screen frame, which was fitted to the old orientation.
    pub fn orientation_cycle_forward(&mut self) -> (o: Orientation)
        ensures
            o == forward_of(old(self)@.orientation),
            final(self)@ == after_turn_forward(old(self)@),
    {
        proof {
            use_type_invariant(&*self);
        }
        self.orientation = match self.orientation {
            Orientation::Portrait0Deg => Orientation::Landscape270Deg,
            Orientation::Landscape270Deg => Orientation::Portrait180Deg,
            Orientation::Portrait180Deg => Orientation::Landscape90Deg,
            Orientation::Landscape90Deg => Orientation::Portrait0Deg,
        };
        self.cover_image_buf = None;
        self.orientation
    }

    /// Steps back to the previous book and drops the cover and the screen
    /// frame. A step that would reach the first book lands on the last one.
    pub fn pos_cycle_backward(&mut self) -> (p: usize)
        ensures
            p == pos_after_backward(old(self)@.pos, old(self)@.books.len()),
            final(self)@ == after_step_backward(old(self)@),
            final(self)@.pos_valid(),
    {
        proof {
            use_type_invariant(&*self);
        }
        let mut pos = self.pos.saturating_sub(1);
        let max_pos = self.books.len().saturating_sub(1);
        if pos == 0 {
            pos = max_pos;
        }
        self.pos = pos;
        self.cover_image_buf = None;
        self.cover_image = None;
        self.pos
    }

    /// Steps on to the next book, from the last one to the first, and drops
    /// the cover and the screen frame.
    pub fn pos_cycle_forward(&mut self) -> (p: usize)
        ensures
            p == pos_after_forward(old(self)@.pos, old(self)@.books.len()),
            final(self)@ == after_step_forward(old(self)@),
            final(self)@.pos_valid(),
    {
        proof {
            use_type_invariant(&*self);
        }
        let mut pos = self.pos.saturating_add(1);
        let max_pos = self.books.len().saturating_sub(1);
        if pos > max_pos {
            pos = 0;
        }
        self.pos = pos;
        self.cover_image_buf = None;
        self.cover_image = None;
        self.pos
    }

    /// The cover of the current book: the cached one, or else the one
    /// retrieved from the data that `read_book` gives for the book's path,
    /// which is then cached. `None` where there is no current book, or
    /// reading or retrieving fails; nothing is cached then.
    pub fn cover_image<F: FnOnce(&str) -> Option<Vec<u8>>>(&mut self, read_book: F) -> (r: Option<&Picture>)
        requires
            forall|path: &str| read_book.requires((path,)),
        ensures
            cover_call(
                old(self)@,
                final(self)@,
                match r {
                    Some(p) => Some(p@),
                    None => None,
                },
                read_book,
            ),
    {
        proof {
            use_type_invariant(&*self);
        }
        if self.cover_image.is_some() {
            return self.cover_image.as_ref();
        }
        if self.pos >= self.books.len() {
            return None;
        }
        let book = self.books[self.pos].as_str();
        let data = match read_book(book) {
            Some(data) => data,
            None => {
                return None;
            },
        };
        let cover = match retrieve_cover(book, data) {
            Ok(cover) => cover,
            Err(_) => {
                return None;
            },
        };
        self.cover_image = Some(cover);
        self.cover_image.as_ref()
    }

    /// The current book's cover fitted to a screen of the given size: the
    /// cached frame, or else the cover (fetched as `cover_image` does)
    /// turned by the orientation, scaled to fill the screen, cropped to it
    /// and converted to grayscale, which is then cached. A cover without
    /// pixels gives no frame.
    pub fn cover_image_buf<F: FnOnce(&str) -> Option<Vec<u8>>>(&mut self, size: Size, read_book: F) -> (r: Option<&GrayFrame>)
        requires
            forall|path: &str| read_book.requires((path,)),
        ensures
            frame_call(
                old(self)@,
                final(self)@,
                match r {
                    Some(f) => Some(f@),
                    None => None,
                },
                size,
                read_book,
            ),
            r matches Some(f) ==> f.well_formed(),
    {
        proof {
            use_type_invariant(&*self);
        }
        if self.cover_image_buf.is_some() {
            return self.cover_image_buf.as_ref();
        }
        let orientation = self.orientation;
        let cover = match self.cover_image(read_book) {
            Some(cover) => cover,
            None => {
                return None;
            },
        };
        if cover.width() == 0 || cover.height() == 0 {
            return None;
        }
        let filled = match orientation {
            Orientation::Portrait0Deg => fill_resized(cover, size.width, size.height),
            Orientation::Landscape90Deg => fill_resized(&rotate_quarter(cover), size.width, size.height),
            Orientation::Portrait180Deg => fill_resized(&rotate_half(cover), size.width, size.height),
            Orientation::Landscape270Deg => fill_resized(&rotate_three_quarters(cover), size.width, size.height),
        };
        let frame = to_gray(&filled);
        self.cover_image_buf = Some(frame);
        self.cover_image_buf.as_ref()
    }

    /// The line of state information that the overlay shows: the position
    /// and the current book's file name.
    pub fn overlay_text(&self) -> (t: String)
        ensures
            t@ == overlay_line(self@.pos, shown_book_name(self@)),
            (forall|i: int| 0 <= i < shown_book_name(self@).len() ==> kept_by_debug(
                #[trigger] shown_book_name(self@)[i],
            )) ==> t@ == "pos: "@ + decimal(self@.pos) + ", book: "@ + seq!['"'] + shown_book_name(self@) + seq!['"'],
    {
        let name = match self.current_book() {
            Some(book) => match path_file_name(book) {
                Some(name) => name,
                None => "<unavailable>".to_string(),
            },
            None => "<unavailable>".to_string(),
        };
        let mut line = "pos: ".to_string();
        line.append(decimal_text(self.pos).as_str());
        line.append(", book: ");
        line.append(debug_text(name.as_str()).as_str());
        line
    }

    /// Updates the state for an event and says what the viewer does next.
    pub fn handle_event(&mut self, event: ViewerEvent) -> (a: ViewerAction)
        ensures
            (final(self)@, a) == event_outcome(old(self)@, event),
    {
        match event {
            ViewerEvent::Init => ViewerAction::Setup,
            ViewerEvent::Show | ViewerEvent::Repaint => ViewerAction::Render,
            ViewerEvent::Prev => {
                if self.overlay {
                    self.orientation_cycle_backward();
                } else {
                    self.pos_cycle_backward();
                }
                ViewerAction::Render
            },
            ViewerEvent::Next => {
                if self.overlay {
                    self.orientation_cycle_forward();
                } else {
                    self.pos_cycle_forward();
                }
                ViewerAction::Render
            },
            ViewerEvent::Menu => {
                self.toggle_overlay();
                ViewerAction::Render
            },
            ViewerEvent::OtherKey | ViewerEvent::Exit => ViewerAction::Stop,
            ViewerEvent::CycleTimer => {
                self.pos_cycle_forward();
                ViewerAction::Render
            },
            ViewerEvent::Ignored => ViewerAction::Idle,
        }
    }

    /// The path of the book at the current position, if there is one.
    pub fn current_book(&self) -> (b: Option<&str>)
        ensures
            match b {
                Some(s) => self@.current_book() == Some(s@),
                None => self@.current_book() is None,
            },
    {
        if self.pos < self.books.len() {
            Some(self.books[self.pos].as_str())
        } else {
            None
        }
    }
}

/// Switching the overlay twice restores the state.
pub proof fn lemma_toggle_twice(v: StateView)
    ensures
        after_toggle(after_toggle(v)) == v,
{
}

/// Turning forward undoes turning backward and the other way round, and
/// four turns in one direction come back to the starting orientation; the
/// books, the position, the overlay and the cover stay, and only the
/// screen frame is dropped.
pub proof fn lemma_turns_return(v: StateView)
    ensures
        after_turn_forward(after_turn_backward(v)) == (StateView { cover_image_buf: None, ..v }),
        after_turn_backward(after_turn_forward(v)) == (StateView { cover_image_buf: None, ..v }),
        after_turn_forward(after_turn_forward(after_turn_forward(after_turn_forward(v)))) == (StateView {
            cover_image_buf: None,
            ..v
        }),
        after_turn_backward(after_turn_backward(after_turn_backward(after_turn_backward(v)))) == (StateView {
            cover_image_buf: None,
            ..v
        }),
{
}

/// Each step keeps the position on a book (or at 0 when there are none).
pub proof fn lemma_steps_stay_in_range(v: StateView)
    requires
        v.pos_valid(),
    ensures
        after_step_forward(v).pos_valid(),
        after_step_backward(v).pos_valid(),
{
}

/// Stepping on from any book shows every book in turn and comes back to
/// it after as many steps as there are books: after `k` steps from
/// position `p` the position is `p + k` modulo the number of books.
pub proof fn lemma_steps_forward_cycle(v: StateView, k: nat)
    requires
        v.pos < v.books.len(),
    ensures
        after_steps_forward(v, k).pos == (v.pos + k) as int % (v.books.len() as int),
        after_steps_forward(v, k).books == v.books,
    decreases k,
{
    let len: int = v.books.len() as int;
    let p: int = v.pos as int;
    let n: int = k as int;
    if k == 0 {
        assert(p % len == p) by (nonlinear_arith)
            requires
                0 <= p < len,
        {
        }
    } else {
        lemma_steps_forward_cycle(v, (k - 1) as nat);
        assert((p + n - 1) % len + 1 == len ==> (p + n) % len == 0) by (nonlinear_arith)
            requires
                len > 0,
                n >= 1,
                p >= 0,
        {
        }
        assert((p + n - 1) % len + 1 < len ==> (p + n) % len == (p + n - 1) % len + 1) by (nonlinear_arith)
            requires
                len > 0,
                n >= 1,
                p >= 0,
        {
        }
    }
}

/// Stepping back undoes stepping on from any book but the first, and
/// stepping on undoes stepping back from a book after the second.
pub proof fn lemma_steps_undo_each_other(pos: nat, len: nat)
    ensures
        0 < pos && pos < len ==> pos_after_backward(pos_after_forward(pos, len), len) == pos,
        1 < pos && pos < len ==> pos_after_forward(pos_after_backward(pos, len), len) == pos,
{
}

/// With two books or more, stepping back never lands on the first book:
/// from the second it goes round to the last.
pub proof fn lemma_step_back_skips_first(pos: nat, len: nat)
    requires
        len >= 2,
        pos < len,
    ensures
        pos_after_backward(pos, len) != 0,
        pos <= 1 ==> pos_after_backward(pos, len) == len - 1,
{
}

/// Stepping on from the last book goes round to the first.
pub proof fn lemma_step_on_wraps(len: nat)
    requires
        len >= 1,
    ensures
        pos_after_forward((len - 1) as nat, len) == 0,
{
}

/// The fallback name needs no escaping, so without a current book the
/// overlay shows `pos: <n>, book: "<unavailable>"`.
pub proof fn lemma_unavailable_shown_plain()
    ensures
        forall|i: int| 0 <= i < "<unavailable>"@.len() ==> kept_by_debug(#[trigger] "<unavailable>"@[i]),
{
    reveal_strlit("<unavailable>");
}

/// Once a cover is cached, fetching it again returns that cover and
/// changes nothing, whatever the reader would now give for the book.
pub proof fn lemma_cached_cover_returned<F: FnOnce(&str) -> Option<Vec<u8>>>(
    before: StateView,
    after: StateView,
    r: Option<ImageModel>,
    read_book: F,
)
    requires
        before.cover_image is Some,
        cover_call(before, after, r, read_book),
    ensures
        after == before,
        r == before.cover_image,
{
}

/// A failed fetch caches nothing: the state stays as it was, and the next
/// fetch reads the book afresh, so once the reader gives data from which a
/// cover can be retrieved, that cover is returned.
pub proof fn lemma_failed_cover_retried<F: FnOnce(&str) -> Option<Vec<u8>>, G: FnOnce(&str) -> Option<Vec<u8>>>(
    before: StateView,
    failed: Option<ImageModel>,
    mid: StateView,
    first_read: F,
    r: Option<ImageModel>,
    after: StateView,
    read_book: G,
    book: Seq<char>,
    data: Seq<u8>,
)
    requires
        before.cover_image is None,
        before.current_book() == Some(book),
        cover_call(before, mid, failed, first_read),
        failed is None,
        cover_call(mid, after, r, read_book),
        forall|path: &str, out: Option<Vec<u8>>| #[trigger]
            read_book.ensures((path,), out) ==> (out matches Some(d) && d@ == data),
        !cover_fails(book, data),
    ensures
        mid == before,
        r matches Some(c) && cover_matches(book, data, c),
{
}

/// Once a frame is cached, asking for a frame again returns that frame and
/// changes nothing, whatever the screen size and the reader.
pub proof fn lemma_cached_frame_returned<F: FnOnce(&str) -> Option<Vec<u8>>>(
    before: StateView,
    after: StateView,
    r: Option<FrameModel>,
    size: Size,
    read_book: F,
)
    requires
        before.cover_image_buf is Some,
        frame_call(before, after, r, size, read_book),
    ensures
        after == before,
        r == before.cover_image_buf,
{
}

/// After a frame was made and the orientation turned either way, the next
/// frame is made afresh from the same cached cover for the new orientation,
/// whatever the reader would now give for the book.
pub proof fn lemma_turn_refits_cover<F: FnOnce(&str) -> Option<Vec<u8>>, G: FnOnce(&str) -> Option<Vec<u8>>>(
    before: StateView,
    mid: StateView,
    first: Option<FrameModel>,
    first_size: Size,
    first_read: F,
    turn_forward: bool,
    after: StateView,
    r: Option<FrameModel>,
    size: Size,
    read_book: G,
)
    requires
        frame_call(before, mid, first, first_size, first_read),
        first is Some,
        frame_call(
            if turn_forward {
                after_turn_forward(mid)
            } else {
                after_turn_backward(mid)
            },
            after,
            r,
            size,
            read_book,
        ),
    ensures
        after.cover_image == mid.cover_image,
        mid.cover_image matches Some(c) && r == Some(frame_of(after.orientation, c, size)),
{
}

/// The screen frame for a cover is made from the cover turned clockwise by
/// as many quarters as the orientation names (none at 0°, one at 90°, two
/// at 180°, three at 270°), for every cover whatever its shape: it is the
/// grayscale of that turned picture scaled to fill the screen.
pub proof fn lemma_frame_made_from_turned_cover(o: Orientation, cover: ImageModel, t: ImageModel, size: Size)
    requires
        bytes_per_pixel(cover.layout) > 0,
        cover.samples.len() == cover.width * cover.height * bytes_per_pixel(cover.layout),
        turned_by(
            cover,
            match o {
                Orientation::Portrait0Deg => 0,
                Orientation::Landscape90Deg => 1,
                Orientation::Portrait180Deg => 2,
                Orientation::Landscape270Deg => 3,
            },
            t,
        ),
    ensures
        frame_of(o, cover, size) == (FrameModel {
            width: filled(t, size.width, size.height).width,
            height: filled(t, size.width, size.height).height,
            pixels: gray_pixels(filled(t, size.width, size.height)),
        }),
{
    let q: int = match o {
        Orientation::Portrait0Deg => 0,
        Orientation::Landscape90Deg => 1,
        Orientation::Portrait180Deg => 2,
        Orientation::Landscape270Deg => 3,
    };
    lemma_turns_move_pixels(cover, q, t);
}

/// The rotation an orientation names, in degrees.
pub open spec fn degrees(o: Orientation) -> int {
    match o {
        Orientation::Portrait0Deg => 0,
        Orientation::Landscape90Deg => 90,
        Orientation::Portrait180Deg => 180,
        Orientation::Landscape270Deg => 270,
    }
}

/// What each event does to the viewer, for every state. The books and the
/// directory never change. The timer always steps on to the next book (the
/// first after the last), whether or not the overlay is shown. The page
/// keys step to the next or previous book while the overlay is off, and
/// turn the screen by 270° or 90° while it is on, keeping the book. The
/// menu key switches the overlay only. Every other event leaves the state
/// as it is: setting up asks for set-up, showing and repainting ask for a
/// drawing, the other keys and exiting stop the viewer, and anything else
/// asks for nothing.
pub proof fn lemma_event_effects(v: StateView, e: ViewerEvent)
    ensures
        ({
            let (w, a) = event_outcome(v, e);
            let len = v.books.len();
            let next: int = if v.pos + 1 < len {
                v.pos as int + 1
            } else {
                0
            };
            let previous: int = if v.pos >= 2 {
                v.pos as int - 1
            } else if len == 0 {
                0
            } else {
                len as int - 1
            };
            &&& w.books == v.books
            &&& w.search_dir == v.search_dir
            &&& (e == ViewerEvent::CycleTimer ==> a == ViewerAction::Render && w.pos == next && w.overlay
                == v.overlay && w.orientation == v.orientation && w.cover_image is None)
            &&& (e == ViewerEvent::Next && !v.overlay ==> a == ViewerAction::Render && w.pos == next
                && w.overlay == v.overlay && w.orientation == v.orientation && w.cover_image is None)
            &&& (e == ViewerEvent::Prev && !v.overlay ==> a == ViewerAction::Render && w.pos == previous
                && w.overlay == v.overlay && w.orientation == v.orientation && w.cover_image is None)
            &&& (e == ViewerEvent::Next && v.overlay ==> a == ViewerAction::Render && w.pos == v.pos
                && w.overlay && degrees(w.orientation) == (degrees(v.orientation) + 270) % 360
                && w.cover_image == v.cover_image && w.cover_image_buf is None)
            &&& (e == ViewerEvent::Prev && v.overlay ==> a == ViewerAction::Render && w.pos == v.pos
                && w.overlay && degrees(w.orientation) == (degrees(v.orientation) + 90) % 360
                && w.cover_image == v.cover_image && w.cover_image_buf is None)
            &&& (e == ViewerEvent::Menu ==> a == ViewerAction::Render && w == (StateView {
                overlay: !v.overlay,
                ..v
            }))
            &&& (e == ViewerEvent::Init ==> a == ViewerAction::Setup && w == v)
            &&& (e == ViewerEvent::Show || e == ViewerEvent::Repaint ==> a == ViewerAction::Render && w == v)
            &&& (e == ViewerEvent::OtherKey || e == ViewerEvent::Exit ==> a == ViewerAction::Stop && w == v)
            &&& (e == ViewerEvent::Ignored ==> a == ViewerAction::Idle && w == v)
        }),
{
}

} // verus!
