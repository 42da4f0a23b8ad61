//! What each widget draws relative to its anchor, as positioned text.

use vstd::prelude::*;

use crate::schedule::refresh_due;
use crate::text::{decimal, push_char, push_decimal, push_str, short_utf8_width, utf8_width};
use crate::widget::{blank, CommandExt, Indicator, Meter, Seperator, Widget, WidgetError};

verus! {

/// The colours that widgets paint with.
#[derive(Debug, Clone, Copy, PartialEq, Eq, Structural)]
pub enum Paint {
    Black,
    Green,
    DarkGreen,
}

/// Text to put at a position, with optional foreground and background.
pub struct DrawOp {
    pub text: String,
    pub x: u16,
    pub y: u16,
    pub fg: Option<Paint>,
    pub bg: Option<Paint>,
}

/// A draw operation as plain values.
pub type DrawView = (Seq<char>, u16, u16, Option<Paint>, Option<Paint>);

impl View for DrawOp {
    type V = DrawView;

    open spec fn view(&self) -> DrawView {
        (self.text@, self.x, self.y, self.fg, self.bg)
    }
}

pub open spec fn ops_view(ops: Seq<DrawOp>) -> Seq<DrawView> {
    ops.map_values(|o: DrawOp| o@)
}

/// The colour of text.
pub fn fg_color() -> (r: Option<Paint>)
    ensures
        r == Some(Paint::Green),
{
    Some(Paint::Green)
}

/// The colour of an inactive indicator's block.
pub fn bg_color() -> (r: Option<Paint>)
    ensures
        r == Some(Paint::DarkGreen),
{
    Some(Paint::DarkGreen)
}

/// Columns kept free to the right of a centred reading and of an
/// indicator's block.
pub const MARGIN: u16 = 2;

/// Where a reading of `len` characters starts, relative to the anchor, in a
/// viewport `width` columns wide: `width / 2 - MARGIN - len`.
pub open spec fn reading_offset_of(width: u16, len: nat) -> Option<u16> {
    if width / 2 >= MARGIN + len {
        Some((width / 2 - MARGIN - len) as u16)
    } else {
        None
    }
}

/// The column offset of a centred reading; `None` when the viewport is too
/// narrow for it.
pub fn reading_offset(width: u16, len: usize) -> (r: Option<u16>)
    ensures
        r == reading_offset_of(width, len as nat),
{
    let half = width / 2;
    if len <= u16::MAX as usize && half >= MARGIN && half - MARGIN >= len as u16 {
        Some(half - MARGIN - len as u16)
    } else {
        None
    }
}

/// The reading `current/max` followed by the unit.
pub open spec fn reading_text_of(current: u64, max: u64, unit: Seq<char>) -> Seq<char> {
    decimal(current as nat) + seq!['/'] + decimal(max as nat) + unit
}

/// `n` spaces.
pub open spec fn spaces(n: nat) -> Seq<char> {
    Seq::new(n, |i: int| ' ')
}

/// Text of `n` spaces.
pub fn blank_text(n: u16) -> (r: String)
    ensures
        r@ == spaces(n as nat),
{
    let mut s = String::new();
    let mut i: u16 = 0;
    while i < n
        invariant
            i <= n,
            s@ =~= spaces(i as nat),
        decreases n - i,
    {
        push_char(&mut s, ' ');
        i = i + 1;
    }
    s
}

/// What a separator draws: its title at the anchor, or nothing.
pub open spec fn seperator_layout(title: Option<Seq<char>>, x: u16, y: u16) -> Seq<DrawView> {
    match title {
        Some(t) => seq![(t, x, y, Some(Paint::Green), None)],
        None => Seq::empty(),
    }
}

impl Seperator {
    /// The title at the anchor, if there is one.
    pub fn draw(&self, x: u16, y: u16) -> (r: Vec<DrawOp>)
        ensures
            r@.len() == if self.title is Some {
                1int
            } else {
                0int
            },
            ops_view(r@) == seperator_layout(
                match self.title {
                    Some(t) => Some(t@),
                    None => None,
                },
                x,
                y,
            ),
    {
        let mut ops: Vec<DrawOp> = Vec::new();
        match &self.title {
            Some(t) => {
                ops.push(DrawOp { text: t.clone(), x, y, fg: fg_color(), bg: None });
            },
            None => {},
        }
        assert(ops_view(ops@) =~= seperator_layout(
            match self.title {
                Some(t) => Some(t@),
                None => None,
            },
            x,
            y,
        ));
        ops
    }
}

/// The row above `y`, or row 0.
pub open spec fn row_above(y: u16) -> u16 {
    if y >= 1 {
        (y - 1) as u16
    } else {
        0
    }
}

/// What a meter draws at anchor `(x, y)`: its title; the reading one row
/// up when readings are shown, centred by its length in UTF-8 bytes; the title again one row up when it
/// is not empty. `None` when the reading does not fit the viewport.
pub open spec fn meter_layout(m: Meter, width: u16, x: u16, y: u16) -> Option<Seq<DrawView>> {
    let title = (m.title@, x, y, Some(Paint::Green), None::<Paint>);
    let t = reading_text_of(m.current_value, m.max_value, m.unit@);
    let first: Option<Seq<DrawView>> = if !m.reading {
        Some(seq![title])
    } else if reading_offset_of(width, utf8_width(t)) is Some && x + reading_offset_of(width, utf8_width(t))->0 <= u16::MAX {
        Some(
            seq![title, (t, (x + reading_offset_of(width, utf8_width(t))->0) as u16, row_above(y), Some(Paint::Green), None::<Paint>)],
        )
    } else {
        None
    };
    match first {
        Some(ops) => Some(
            if m.title@.len() > 0 {
                ops.push((m.title@, x, row_above(y), Some(Paint::Green), None::<Paint>))
            } else {
                ops
            },
        ),
        None => None,
    }
}

/// What an indicator draws at anchor `(x, y)`: a block of
/// `width / 2 - MARGIN` spaces whose background shows the flag, then its
/// title, if any, in black on that background. `None` when the viewport is
/// narrower than the margins.
pub open spec fn indicator_layout(i: Indicator, width: u16, x: u16, y: u16) -> Option<
    Seq<DrawView>,
> {
    if width / 2 >= MARGIN {
        let bg = if i.value {
            Some(Paint::Green)
        } else {
            Some(Paint::DarkGreen)
        };
        let block = (spaces((width / 2 - MARGIN) as nat), x, y, None::<Paint>, bg);
        Some(
            match i.title {
                Some(t) => seq![block, (t@, x, y, Some(Paint::Black), bg)],
                None => seq![block],
            },
        )
    } else {
        None
    }
}

/// The update's share of a result that updating then drawing returned: a
/// parse error is the update's, anything else means the update succeeded.
pub open spec fn update_part(r: Result<Vec<DrawOp>, WidgetError>) -> Result<(), WidgetError> {
    match r {
        Err(WidgetError::Parse) => Err(WidgetError::Parse),
        _ => Ok(()),
    }
}

impl Meter {
    /// The reading `current/max` followed by the unit.
    pub fn reading_text(&self) -> (r: String)
        ensures
            r@ == reading_text_of(self.current_value, self.max_value, self.unit@),
    {
        let mut s = String::new();
        push_decimal(&mut s, self.current_value);
        push_char(&mut s, '/');
        push_decimal(&mut s, self.max_value);
        push_str(&mut s, self.unit.as_str());
        s
    }

    /// Everything the meter draws at anchor `(x, y)` in a viewport `width`
    /// columns wide, but the theme's own graphics.
    pub fn draw(&self, width: u16, x: u16, y: u16) -> (r: Result<Vec<DrawOp>, WidgetError>)
        ensures
            match meter_layout(*self, width, x, y) {
                Some(v) => r is Ok && ops_view(r->Ok_0@) == v,
                None => r == Err::<Vec<DrawOp>, WidgetError>(WidgetError::Viewport),
            },
    {
        let up: u16 = if y >= 1 {
            y - 1
        } else {
            0
        };
        let mut ops: Vec<DrawOp> = Vec::new();
        ops.push(DrawOp { text: self.title.clone(), x, y, fg: fg_color(), bg: None });
        if self.reading {
            let t = self.reading_text();
            let off = match short_utf8_width(t.as_str()) {
                Some(len) => reading_offset(width, len as usize),
                None => None,
            };
            match off {
                Some(off) => {
                    if x > u16::MAX - off {
                        return Err(WidgetError::Viewport);
                    }
                    ops.push(DrawOp { text: t, x: x + off, y: up, fg: fg_color(), bg: None });
                },
                None => {
                    return Err(WidgetError::Viewport);
                },
            }
        }
        if self.title.as_str().unicode_len() > 0 {
            ops.push(DrawOp { text: self.title.clone(), x, y: up, fg: fg_color(), bg: None });
        }
        let ghost want = meter_layout(*self, width, x, y);
        assert(want is Some);
        assert(ops_view(ops@) =~= want->0);
        Ok(ops)
    }

    /// Refreshes the meter when a refresh is due at `now`, then lays it out.
    pub fn update_and_draw<C: CommandExt>(
        &mut self,
        now: u64,
        shell: &mut C,
        width: u16,
        x: u16,
        y: u16,
    ) -> (r: Result<Vec<DrawOp>, WidgetError>)
        ensures
            old(self).updated(*final(self), now, update_part(r)),
            !refresh_due(old(self).timer, old(self).frequency, now) || blank(
                old(self).value_command@,
            ) ==> *final(shell) == *old(shell),
            r is Ok ==> meter_layout(*final(self), width, x, y) == Some(ops_view(r->Ok_0@)),
            r == Err::<Vec<DrawOp>, WidgetError>(WidgetError::Viewport) ==> meter_layout(
                *final(self),
                width,
                x,
                y,
            ) is None,
            (!refresh_due(old(self).timer, old(self).frequency, now) || blank(
                old(self).value_command@,
            )) && meter_layout(*final(self), width, x, y) is Some ==> r is Ok,
    {
        self.update(now, shell)?;
        self.draw(width, x, y)
    }
}

impl Indicator {
    /// Everything the indicator draws at anchor `(x, y)` in a viewport
    /// `width` columns wide.
    pub fn draw(&self, width: u16, x: u16, y: u16) -> (r: Result<Vec<DrawOp>, WidgetError>)
        ensures
            match indicator_layout(*self, width, x, y) {
                Some(v) => r is Ok && ops_view(r->Ok_0@) == v,
                None => r == Err::<Vec<DrawOp>, WidgetError>(WidgetError::Viewport),
            },
    {
        if width / 2 < MARGIN {
            return Err(WidgetError::Viewport);
        }
        let bg = if self.value {
            fg_color()
        } else {
            bg_color()
        };
        let mut ops: Vec<DrawOp> = Vec::new();
        ops.push(DrawOp { text: blank_text(width / 2 - MARGIN), x, y, fg: None, bg });
        match &self.title {
            Some(t) => {
                ops.push(DrawOp { text: t.clone(), x, y, fg: Some(Paint::Black), bg });
            },
            None => {},
        }
        let ghost want = indicator_layout(*self, width, x, y);
        assert(ops_view(ops@) =~= want->0);
        Ok(ops)
    }

    /// Refreshes the indicator when a refresh is due at `now`, then lays it
    /// out.
    pub fn draw_and_update<C: CommandExt>(
        &mut self,
        now: u64,
        shell: &mut C,
        width: u16,
        x: u16,
        y: u16,
    ) -> (r: Result<Vec<DrawOp>, WidgetError>)
        ensures
            old(self).updated(*final(self), now, update_part(r)),
            !refresh_due(old(self).timer, old(self).frequency, now) || blank(old(self).command@)
                ==> *final(shell) == *old(shell),
            r is Ok ==> indicator_layout(*final(self), width, x, y) == Some(ops_view(r->Ok_0@)),
            r == Err::<Vec<DrawOp>, WidgetError>(WidgetError::Viewport) ==> indicator_layout(
                *final(self),
                width,
                x,
                y,
            ) is None,
            (!refresh_due(old(self).timer, old(self).frequency, now) || blank(
                old(self).command@,
            )) && indicator_layout(*final(self), width, x, y) is Some ==> r is Ok,
    {
        self.update(now, shell)?;
        self.draw(width, x, y)
    }
}

/// What a widget draws at anchor `(x, y)` in a viewport `width` columns
/// wide; `None` when it does not fit.
pub open spec fn widget_layout(w: Widget, width: u16, x: u16, y: u16) -> Option<Seq<DrawView>> {
    match w {
        Widget::Meter(m) => meter_layout(m, width, x, y),
        Widget::Indicator(i) => indicator_layout(i, width, x, y),
        Widget::Seperator(s) => Some(
            seperator_layout(
                match s.title {
                    Some(t) => Some(t@),
                    None => None,
                },
                x,
                y,
            ),
        ),
    }
}

impl Widget {
    /// Reads the widget's baseline once at start-up.
    pub fn init<C: CommandExt>(&mut self, shell: &mut C) -> (r: Result<(), WidgetError>)
        ensures
            match (*old(self), *final(self)) {
                (Widget::Meter(a), Widget::Meter(b)) => a.initialized(b, r),
                (Widget::Indicator(a), Widget::Indicator(b)) => a.initialized(b, r),
                (Widget::Seperator(a), Widget::Seperator(b)) => a == b && r is Ok,
                _ => false,
            },
    {
        match self {
            Widget::Meter(m) => m.init(shell),
            Widget::Indicator(i) => i.init(shell),
            Widget::Seperator(_) => Ok(()),
        }
    }

    /// Refreshes the widget when a refresh is due at `now`, then lays it out
    /// at anchor `(x, y)`.
    pub fn update_and_draw<C: CommandExt>(
        &mut self,
        now: u64,
        shell: &mut C,
        width: u16,
        x: u16,
        y: u16,
    ) -> (r: Result<Vec<DrawOp>, WidgetError>)
        ensures
            match (*old(self), *final(self)) {
                (Widget::Meter(a), Widget::Meter(b)) => {
                    &&& a.updated(b, now, update_part(r))
                    &&& (!refresh_due(a.timer, a.frequency, now) || blank(a.value_command@))
                        && meter_layout(b, width, x, y) is Some ==> r is Ok
                },
                (Widget::Indicator(a), Widget::Indicator(b)) => {
                    &&& a.updated(b, now, update_part(r))
                    &&& (!refresh_due(a.timer, a.frequency, now) || blank(a.command@))
                        && indicator_layout(b, width, x, y) is Some ==> r is Ok
                },
                (Widget::Seperator(a), Widget::Seperator(b)) => a == b && r is Ok,
                _ => false,
            },
            r is Ok ==> widget_layout(*final(self), width, x, y) == Some(ops_view(r->Ok_0@)),
            r == Err::<Vec<DrawOp>, WidgetError>(WidgetError::Viewport) ==> widget_layout(
                *final(self),
                width,
                x,
                y,
            ) is None,
    {
        match self {
            Widget::Meter(m) => m.update_and_draw(now, shell, width, x, y),
            Widget::Indicator(i) => i.draw_and_update(now, shell, width, x, y),
            Widget::Seperator(s) => Ok(s.draw(x, y)),
        }
    }
}

} // verus!
