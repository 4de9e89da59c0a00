use vstd::prelude::*;

verus! {

/// A rectangle of terminal cells.
#[derive(Clone, Copy, Debug, PartialEq, Eq, Structural)]
pub struct Rect {
    pub x: u16,
    pub y: u16,
    pub width: u16,
    pub height: u16,
}

impl Rect {
    /// A rectangle lies within the coordinate range of the terminal.
    pub open spec fn well_formed(self) -> bool {
        &&& self.x + self.width <= u16::MAX
        &&& self.y + self.height <= u16::MAX
    }

    /// The row just below the rectangle.
    pub open spec fn bottom(self) -> int {
        self.y + self.height
    }
}

/// `a - b`, or 0 when `b` is larger.
pub open spec fn sat_sub(a: int, b: int) -> int {
    if a >= b {
        a - b
    } else {
        0
    }
}

pub open spec fn min(a: int, b: int) -> int {
    if a <= b {
        a
    } else {
        b
    }
}

/// Where the clock digits go: centered in the area, cut to it, and moved
/// one row down when a header is present, the digits sit exactly two rows
/// below the top and there is room below them.
pub open spec fn centered_text(area: Rect, text_width: u16, text_height: u16, has_header: bool) -> Rect {
    let y = area.y + sat_sub(area.height as int, text_height as int) / 2;
    let height = min(text_height as int, area.height as int);
    let shift = has_header && area.y + 2 == y && y + height < area.bottom();
    Rect {
        x: (area.x + sat_sub(area.width as int, text_width as int) / 2) as u16,
        y: (if shift { y + 1 } else { y }) as u16,
        width: min(text_width as int, area.width as int) as u16,
        height: height as u16,
    }
}

/// A one-row label of `len` bytes centered across the area on row `top`.
pub open spec fn label_rect(area: Rect, len: usize, top: int) -> Rect {
    let len = len as u16;
    Rect {
        x: (area.x + sat_sub(area.width as int, len as int) / 2) as u16,
        y: top as u16,
        width: min(len as int, area.width as int) as u16,
        height: min(1, area.height as int) as u16,
    }
}

/// Where the digits, the header and the footer of a centered clock go.
#[derive(Clone, Copy, Debug, PartialEq, Eq, Structural)]
pub struct CenteredLayout {
    pub text: Rect,
    pub header: Option<Rect>,
    pub footer: Option<Rect>,
}

/// The centered layout of the digits and their labels. The header goes two
/// rows above the digits when it fits inside the area, the footer one row
/// below them when there is a row to spare.
pub open spec fn centered(
    area: Rect,
    text_width: u16,
    text_height: u16,
    header_len: Option<usize>,
    footer_len: Option<usize>,
) -> CenteredLayout {
    let text = centered_text(area, text_width, text_height, header_len is Some);
    CenteredLayout {
        text,
        header: match header_len {
            Some(len) => if area.y + 2 <= text.y {
                Some(label_rect(area, len, text.y - 2))
            } else {
                None
            },
            None => None,
        },
        footer: match footer_len {
            Some(len) => if area.bottom() >= text.bottom() + 2 {
                Some(label_rect(area, len, text.bottom() + 1))
            } else {
                None
            },
            None => None,
        },
    }
}

fn label(area: Rect, len: usize, top: u16) -> (r: Rect)
    requires
        area.well_formed(),
    ensures
        r == label_rect(area, len, top as int),
{
    let len = len as u16;
    let width = if len <= area.width {
        len
    } else {
        area.width
    };
    let spare = if area.width >= len {
        area.width - len
    } else {
        0
    };
    Rect {
        x: area.x + spare / 2,
        y: top,
        width,
        height: if area.height >= 1 {
            1
        } else {
            area.height
        },
    }
}

/// Lay out a block of digits of `text_size` (width, height) centered in the
/// area, with an optional header and footer of the given byte lengths.
pub fn centered_layout(
    area: Rect,
    text_size: (u16, u16),
    header_len: Option<usize>,
    footer_len: Option<usize>,
) -> (r: CenteredLayout)
    requires
        area.well_formed(),
        header_len is Some ==> area.y + 2 <= u16::MAX,
        footer_len is Some ==> centered_text(area, text_size.0, text_size.1, header_len is Some).bottom()
            + 2 <= u16::MAX,
    ensures
        r == centered(area, text_size.0, text_size.1, header_len, footer_len),
        r.text.well_formed(),
        r.text.bottom() <= area.bottom(),
{
    let (text_width, text_height) = text_size;
    let spare_width = if area.width >= text_width {
        area.width - text_width
    } else {
        0
    };
    let spare_height = if area.height >= text_height {
        area.height - text_height
    } else {
        0
    };
    let height = if text_height <= area.height {
        text_height
    } else {
        area.height
    };
    let mut text = Rect {
        x: area.x + spare_width / 2,
        y: area.y + spare_height / 2,
        width: if text_width <= area.width {
            text_width
        } else {
            area.width
        },
        height,
    };
    if header_len.is_some() && area.y + 2 == text.y && text.y + text.height < area.y
        + area.height {
        text.y = text.y + 1;
    }
    let header = match header_len {
        Some(len) => if area.y + 2 <= text.y {
            Some(label(area, len, text.y - 2))
        } else {
            None
        },
        None => None,
    };
    let footer = match footer_len {
        Some(len) => if area.y + area.height >= text.y + text.height + 2 {
            Some(label(area, len, text.y + text.height + 1))
        } else {
            None
        },
        None => None,
    };
    CenteredLayout { text, header, footer }
}

} // verus!
