//! The geometry that the stacking of windows is computed from, and how a
//! display size is read from a display tool's listing.

use vstd::prelude::*;
use crate::text::{contains, fields, span_len, exactly, split, to_chars, split_at, split_fields,
    includes, find_char, slice, texts};
use crate::codec::{parse_u32, parse_decimal};
use crate::sift::{first_hit, sift, lemma_first_hit_at, lemma_no_hit_yet, lemma_no_hit};

verus! {

/// The sizes, in pixels, of the display, of the panel that is kept free and
/// of the application's windows.
#[derive(Clone, Copy, Debug, PartialEq, Eq, Structural)]
pub struct Config {
    pub display_width: u32,
    pub display_height: u32,
    pub panel_height: u32,
    pub eve_width: u32,
    pub eve_height: u32,
}

/// A rectangle on the display.
#[derive(Clone, Copy, Debug, PartialEq, Eq, Structural)]
pub struct Rect {
    pub x: i32,
    pub y: i32,
    pub width: u32,
    pub height: u32,
}

/// The display size that is taken where none can be detected.
pub open spec fn default_display_size() -> (u32, u32) {
    (1920u32, 1080u32)
}

impl Config {
    /// The windows are no wider than the display, and the panel is no
    /// higher.
    pub open spec fn fits_display(self) -> bool {
        self.eve_width <= self.display_width && self.panel_height <= self.display_height
    }

    /// The rectangle that every window is stacked into: as wide as the
    /// windows are, centred, from the top of the display down to the panel.
    pub open spec fn stack_rect_of(self) -> Rect {
        Rect {
            x: ((self.display_width - self.eve_width) / 2) as i32,
            y: 0,
            width: self.eve_width,
            height: (self.display_height - self.panel_height) as u32,
        }
    }

    /// Whether the sizes fit the display.
    pub fn is_valid(&self) -> (b: bool)
        ensures
            b == self.fits_display(),
    {
        self.eve_width <= self.display_width && self.panel_height <= self.display_height
    }

    /// The left edge of the centred windows.
    pub fn eve_x(&self) -> (x: i32)
        requires
            self.fits_display(),
        ensures
            x == (self.display_width - self.eve_width) / 2,
            x == self.stack_rect_of().x,
    {
        ((self.display_width - self.eve_width) / 2) as i32
    }

    /// The top edge of the windows.
    pub fn eve_y(&self) -> (y: i32)
        ensures
            y == 0,
    {
        0
    }

    /// The height that is left above the panel.
    pub fn eve_height_adjusted(&self) -> (h: u32)
        requires
            self.fits_display(),
        ensures
            h == self.display_height - self.panel_height,
    {
        self.display_height - self.panel_height
    }

    /// The rectangle that every window is stacked into.
    pub fn stack_rect(&self) -> (r: Rect)
        requires
            self.fits_display(),
        ensures
            r == self.stack_rect_of(),
    {
        Rect {
            x: self.eve_x(),
            y: self.eve_y(),
            width: self.eve_width,
            height: self.eve_height_adjusted(),
        }
    }
}

/// The one-character texts `*` and `x`.
pub open spec fn star() -> Seq<char> {
    seq!['*']
}

pub open spec fn cross() -> Seq<char> {
    seq!['x']
}

/// The resolution that one line of a display listing names: the line marks
/// a current mode with `*`, and its first field is a width, an `x` and a
/// height.
pub open spec fn line_resolution(line: Seq<char>) -> Option<(u32, u32)> {
    if contains(line, star()) && contains(line, cross()) && fields(line).len() > 0 {
        let mode = fields(line)[0];
        let n = span_len(mode, exactly('x')) as int;
        if n < mode.len() {
            match (parse_u32(mode.take(n), 10), parse_u32(mode.skip(n + 1), 10)) {
                (Some(w), Some(h)) => Some((w, h)),
                _ => None,
            }
        } else {
            None
        }
    } else {
        None
    }
}

/// `line_resolution`, as a value.
pub open spec fn resolution_reader() -> spec_fn(Seq<char>) -> Option<(u32, u32)> {
    |line: Seq<char>| line_resolution(line)
}

/// The display size that a listing gives: the resolution of the first line
/// that names one.
pub open spec fn listed_display_size(listing: Seq<char>) -> Option<(u32, u32)> {
    first_hit(split(listing, '\n'), resolution_reader())
}

/// The display size to go by: the one that the listing gives, the default
/// where there is no listing or it names no resolution.
pub open spec fn display_size(listing: Option<Seq<char>>) -> (u32, u32) {
    match listing {
        Some(text) => match listed_display_size(text) {
            Some(size) => size,
            None => default_display_size(),
        },
        None => default_display_size(),
    }
}

/// Reads the resolution that one line names.
pub fn read_resolution(line: &Vec<char>) -> (r: Option<(u32, u32)>)
    ensures
        r == line_resolution(line@),
{
    let mark = vec!['*'];
    let by = vec!['x'];
    assert(mark@ == star());
    assert(by@ == cross());
    if !includes(line, &mark) || !includes(line, &by) {
        return None;
    }
    let parts = split_fields(line);
    if parts.len() == 0 {
        return None;
    }
    let mode = &parts[0];
    assert(mode@ == texts(parts@)[0]);
    assert(mode@.skip(0) == mode@);
    let n = find_char(mode, 0, 'x');
    if n >= mode.len() {
        return None;
    }
    let width = slice(mode, 0, n);
    let height = slice(mode, n + 1, mode.len());
    assert(width@ == mode@.take(n as int));
    assert(height@ == mode@.skip(n + 1));
    match (parse_decimal(&width), parse_decimal(&height)) {
        (Some(w), Some(h)) => Some((w, h)),
        _ => None,
    }
}

/// Detects the display size from what the display tool printed, if it ran
/// and printed text.
#[verifier::loop_isolation(false)]
pub fn detect_display_size(listing: Option<&str>) -> (size: (u32, u32))
    ensures
        size == display_size(
            match listing {
                Some(text) => Some(text@),
                None => None,
            },
        ),
{
    let text = match listing {
        Some(text) => text,
        None => {
            return (1920, 1080);
        },
    };
    let chars = to_chars(text);
    let lines = split_at(&chars, '\n');
    let ghost all = split(text@, '\n');
    let ghost f = resolution_reader();
    let mut i: usize = 0;
    assert(all.take(0) == Seq::<Seq<char>>::empty());
    while i < lines.len()
        invariant
            i <= lines.len(),
            all == texts(lines@),
            f == resolution_reader(),
            sift(all.take(i as int), f).len() == 0,
        decreases lines.len() - i,
    {
        match read_resolution(&lines[i]) {
            Some(size) => {
                proof {
                    lemma_first_hit_at(all, f, i as int, size);
                }
                return size;
            },
            None => {},
        }
        proof {
            lemma_no_hit_yet(all, f, i as int);
        }
        i += 1;
    }
    proof {
        lemma_no_hit(all, f);
    }
    (1920, 1080)
}

} // verus!
