//! A column of tabs, one line each, that scrolls when there are too many.

use crate::ui::layout::contains_point;
use crate::ui::layout::minus;
use crate::ui::layout::mouse_event_coords;
use crate::ui::layout::event_cell;
use crate::ui::layout::plus;
use crate::ui::layout::MouseEvent;
use crate::ui::layout::Rect;
use crate::ui::style::Style;
use vstd::prelude::*;

verus! {

/// The sides of a frame, one bit each, as `tui` numbers them.
pub const BORDER_TOP: u8 = 0b0_0010;

pub const BORDER_RIGHT: u8 = 0b0_0100;

pub const BORDER_BOTTOM: u8 = 0b0_1000;

pub const BORDER_LEFT: u8 = 0b1_0000;

/// The attributes of the selected tab: bold and underlined.
pub const UNDERLINED_BOLD: u16 = 0b1001;

/// The frame around a widget: which of its sides are drawn.
#[derive(Clone, Copy, Debug, Default, PartialEq, Eq, Structural)]
pub struct Block {
    pub borders: u8,
}

/// The inside of a frame with the given sides around an area, from `tui`'s
/// `Block::inner`: nothing where the area has less than two columns or two lines,
/// else the area without one column or line for each side that is drawn. The areas
/// whose left or top side cannot move inwards are left out.
#[verifier::external_body]
fn frame_inside(borders: u8, area: Rect) -> (inner: Rect)
    requires
        (Block { borders }).frames(area),
    ensures
        inner == (Block { borders }).inside(area),
{
    let sides = tui::widgets::Borders::from_bits_truncate(u32::from(borders));
    let outer = tui::layout::Rect { x: area.x, y: area.y, width: area.width, height: area.height };
    let inner = tui::widgets::Block::default().borders(sides).inner(outer);
    Rect { x: inner.x, y: inner.y, width: inner.width, height: inner.height }
}

impl Block {
    pub fn borders(self, borders: u8) -> (block: Block)
        ensures
            block == (Block { borders }),
    {
        Block { borders }
    }

    pub open spec fn has(self, side: u8) -> bool {
        self.borders & side != 0
    }

    /// Whether the frame can stand around an area: an area that has an inside does
    /// not start in the last column when the left side is drawn, nor in the last line
    /// when the top side is.
    pub open spec fn frames(self, area: Rect) -> bool {
        area.width < 2 || area.height < 2 || {
            &&& self.has(BORDER_LEFT) ==> area.x < u16::MAX
            &&& self.has(BORDER_TOP) ==> area.y < u16::MAX
        }
    }

    /// The area inside the frame. A frame around less than two columns or two lines
    /// has no inside.
    pub open spec fn inside(self, area: Rect) -> Rect {
        if area.width < 2 || area.height < 2 {
            Rect { x: 0, y: 0, width: 0, height: 0 }
        } else {
            let left: u16 = if self.has(BORDER_LEFT) {
                1
            } else {
                0
            };
            let top: u16 = if self.has(BORDER_TOP) {
                1
            } else {
                0
            };
            let right: u16 = if self.has(BORDER_RIGHT) {
                1
            } else {
                0
            };
            let bottom: u16 = if self.has(BORDER_BOTTOM) {
                1
            } else {
                0
            };
            Rect {
                x: (area.x + left) as u16,
                y: (area.y + top) as u16,
                width: (area.width - left - right) as u16,
                height: (area.height - top - bottom) as u16,
            }
        }
    }

    /// Whether the frame can stand around an area.
    pub fn can_frame(&self, area: Rect) -> (can: bool)
        ensures
            can == self.frames(area),
    {
        area.width < 2 || area.height < 2 || ((self.borders & BORDER_LEFT == 0 || area.x
            < u16::MAX) && (self.borders & BORDER_TOP == 0 || area.y < u16::MAX))
    }

    /// The area inside the frame.
    pub fn inner(&self, area: Rect) -> (inner: Rect)
        requires
            self.frames(area),
        ensures
            inner == self.inside(area),
    {
        frame_inside(self.borders, area)
    }
}

/// A frame of which only the right side is drawn can stand around every area.
pub proof fn lemma_right_border_frames(area: Rect)
    ensures
        (Block { borders: BORDER_RIGHT }).frames(area),
{
    assert(BORDER_RIGHT & BORDER_LEFT == 0 && BORDER_RIGHT & BORDER_TOP == 0) by (bit_vector);
}

/// A piece of styled text at the right end of a tab.
#[derive(Clone, Debug, PartialEq, Eq)]
pub struct Symbol {
    pub text: String,
    pub style: Style,
}

/// The title of a tab: its text, the symbols at its right end, and its style.
#[derive(Clone, Debug, PartialEq, Eq)]
pub struct Title {
    pub text: String,
    pub symbols: Vec<Symbol>,
    pub style: Style,
}

impl Title {
    /// A title without text and symbols, in the plain style.
    pub fn new() -> (title: Title)
        ensures
            title.text@ == Seq::<char>::empty(),
            title.symbols@.len() == 0,
            title.style == Style::plain(),
    {
        Title { text: String::new(), symbols: Vec::new(), style: Style::default() }
    }

    pub fn text(self, text: String) -> (title: Title)
        ensures
            title.text == text,
            title.symbols == self.symbols,
            title.style == self.style,
    {
        Title { text, symbols: self.symbols, style: self.style }
    }

    pub fn symbols(self, symbols: Vec<Symbol>) -> (title: Title)
        ensures
            title.text == self.text,
            title.symbols == symbols,
            title.style == self.style,
    {
        Title { text: self.text, symbols, style: self.style }
    }

    pub fn style(self, style: Style) -> (title: Title)
        ensures
            title.text == self.text,
            title.symbols == self.symbols,
            title.style == style,
    {
        Title { text: self.text, symbols: self.symbols, style }
    }
}

/// What a mouse event asks of the tabs.
#[derive(Clone, Copy, Debug, PartialEq, Eq, Structural)]
pub enum MouseAction {
    Select(usize),
    ScrollUp,
    ScrollDown,
}

/// The parts of the column: a line to scroll up at the top, if the tabs are scrolled,
/// a line to scroll down at the bottom, if tabs are left below, and the tabs between.
#[derive(Clone, Copy, Debug, PartialEq, Eq, Structural)]
pub struct Layout {
    pub scroll_up_area: Rect,
    pub select_area: Rect,
    pub scroll_down_area: Rect,
}

/// Whether tabs are left below an area: the area keeps two of its lines free, and
/// the tabs from the first one shown on do not fit into the others.
pub open spec fn tabs_overflow(tabs: int, scroll: usize, area: Rect) -> bool {
    tabs + 2 > scroll + area.height
}

/// The parts of a column of `tabs` tabs, scrolled by `scroll`, within an area: the
/// tabs take the inside of the frame, if there is one.
pub open spec fn tab_parts(block: Option<Block>, tabs: int, scroll: usize, area: Rect) -> Layout {
    let tabs_area = match block {
        Some(b) => b.inside(area),
        None => area,
    };
    let up: u16 = if scroll > 0 {
        1
    } else {
        0
    };
    let down: u16 = if tabs_overflow(tabs, scroll, tabs_area) {
        1
    } else {
        0
    };
    Layout {
        scroll_up_area: Rect { x: tabs_area.x, y: tabs_area.y, width: tabs_area.width, height: up },
        select_area: Rect {
            x: tabs_area.x,
            y: plus(tabs_area.y, up),
            width: tabs_area.width,
            height: minus(minus(tabs_area.height, up), down),
        },
        scroll_down_area: Rect {
            x: tabs_area.x,
            y: minus(plus(tabs_area.y, tabs_area.height), down),
            width: tabs_area.width,
            height: down,
        },
    }
}

/// What a mouse event asks of a column of tabs: to scroll, on the line to scroll up
/// or down, or to select the tab under the mouse, or the last tab when the mouse is
/// below it. Nothing where there is no tab, or outside of the column.
pub open spec fn tab_action(
    block: Option<Block>,
    tabs: int,
    scroll: usize,
    area: Rect,
    event: MouseEvent,
) -> Option<MouseAction> {
    let (x, y) = event_cell(event);
    let layout = tab_parts(block, tabs, scroll, area);
    if layout.scroll_up_area.holds(x, y) {
        Some(MouseAction::ScrollUp)
    } else if layout.scroll_down_area.holds(x, y) {
        Some(MouseAction::ScrollDown)
    } else if layout.select_area.holds(x, y) && tabs > 0 {
        let under = scroll + y - layout.select_area.y;
        Some(
            MouseAction::Select(
                if under < tabs - 1 {
                    under as usize
                } else {
                    (tabs - 1) as usize
                },
            ),
        )
    } else {
        None
    }
}

pub struct VerticalTabs {
    pub block: Option<Block>,
    pub titles: Vec<Title>,
    pub selected: usize,
    /// The number of tabs that are scrolled out at the top.
    pub scroll: usize,
    pub style: Style,
    pub highlight_style: Style,
}

impl VerticalTabs {
    /// No tabs, no frame, nothing scrolled, all in the plain style.
    pub fn new() -> (tabs: VerticalTabs)
        ensures
            tabs.block is None,
            tabs.titles@.len() == 0,
            tabs.selected == 0,
            tabs.scroll == 0,
            tabs.style == Style::plain(),
            tabs.highlight_style == Style::plain(),
    {
        VerticalTabs {
            block: None,
            titles: Vec::new(),
            selected: 0,
            scroll: 0,
            style: Style::default(),
            highlight_style: Style::default(),
        }
    }

    pub fn block(self, block: Block) -> (tabs: VerticalTabs)
        ensures
            tabs.block == Some(block),
            tabs.titles == self.titles,
            tabs.selected == self.selected,
            tabs.scroll == self.scroll,
            tabs.style == self.style,
            tabs.highlight_style == self.highlight_style,
    {
        VerticalTabs {
            block: Some(block),
            titles: self.titles,
            selected: self.selected,
            scroll: self.scroll,
            style: self.style,
            highlight_style: self.highlight_style,
        }
    }

    pub fn titles(self, titles: Vec<Title>) -> (tabs: VerticalTabs)
        ensures
            tabs.block == self.block,
            tabs.titles == titles,
            tabs.selected == self.selected,
            tabs.scroll == self.scroll,
            tabs.style == self.style,
            tabs.highlight_style == self.highlight_style,
    {
        VerticalTabs {
            block: self.block,
            titles,
            selected: self.selected,
            scroll: self.scroll,
            style: self.style,
            highlight_style: self.highlight_style,
        }
    }

    pub fn select(self, selected: usize) -> (tabs: VerticalTabs)
        ensures
            tabs.block == self.block,
            tabs.titles == self.titles,
            tabs.selected == selected,
            tabs.scroll == self.scroll,
            tabs.style == self.style,
            tabs.highlight_style == self.highlight_style,
    {
        VerticalTabs {
            block: self.block,
            titles: self.titles,
            selected,
            scroll: self.scroll,
            style: self.style,
            highlight_style: self.highlight_style,
        }
    }

    pub fn scroll(self, scroll: usize) -> (tabs: VerticalTabs)
        ensures
            tabs.block == self.block,
            tabs.titles == self.titles,
            tabs.selected == self.selected,
            tabs.scroll == scroll,
            tabs.style == self.style,
            tabs.highlight_style == self.highlight_style,
    {
        VerticalTabs {
            block: self.block,
            titles: self.titles,
            selected: self.selected,
            scroll,
            style: self.style,
            highlight_style: self.highlight_style,
        }
    }

    pub fn style(self, style: Style) -> (tabs: VerticalTabs)
        ensures
            tabs.block == self.block,
            tabs.titles == self.titles,
            tabs.selected == self.selected,
            tabs.scroll == self.scroll,
            tabs.style == style,
            tabs.highlight_style == self.highlight_style,
    {
        VerticalTabs {
            block: self.block,
            titles: self.titles,
            selected: self.selected,
            scroll: self.scroll,
            style,
            highlight_style: self.highlight_style,
        }
    }

    pub fn highlight_style(self, style: Style) -> (tabs: VerticalTabs)
        ensures
            tabs.block == self.block,
            tabs.titles == self.titles,
            tabs.selected == self.selected,
            tabs.scroll == self.scroll,
            tabs.style == self.style,
            tabs.highlight_style == style,
    {
        VerticalTabs {
            block: self.block,
            titles: self.titles,
            selected: self.selected,
            scroll: self.scroll,
            style: self.style,
            highlight_style: style,
        }
    }

    /// Whether tabs are scrolled out at the top.
    pub open spec fn scrolled(&self) -> bool {
        self.scroll > 0
    }

    /// Whether tabs are left below an area.
    pub open spec fn overflows(&self, area: Rect) -> bool {
        tabs_overflow(self.titles@.len() as int, self.scroll, area)
    }

    pub fn has_scroll_up(&self, area: Rect) -> (r: bool)
        ensures
            r == self.scrolled(),
    {
        self.scroll > 0
    }

    pub fn has_scroll_down(&self, area: Rect) -> (r: bool)
        ensures
            r == self.overflows(area),
    {
        self.titles.len() as u128 + 2 > self.scroll as u128 + area.height as u128
    }

    /// The parts of the column within an area.
    pub open spec fn parts(&self, area: Rect) -> Layout {
        tab_parts(self.block, self.titles@.len() as int, self.scroll, area)
    }

    /// Whether the frame of the tabs, if they have one, can stand around an area.
    pub open spec fn frames(&self, area: Rect) -> bool {
        match self.block {
            Some(b) => b.frames(area),
            None => true,
        }
    }

    pub fn can_frame(&self, area: Rect) -> (can: bool)
        ensures
            can == self.frames(area),
    {
        match self.block {
            Some(b) => b.can_frame(area),
            None => true,
        }
    }

    pub fn layout(&self, area: Rect) -> (layout: Layout)
        requires
            self.frames(area),
        ensures
            layout == self.parts(area),
    {
        let tabs_area = match self.block {
            Some(b) => b.inner(area),
            None => area,
        };
        let scroll_up_offset: u16 = if self.has_scroll_up(tabs_area) {
            1
        } else {
            0
        };
        let scroll_down_offset: u16 = if self.has_scroll_down(tabs_area) {
            1
        } else {
            0
        };
        Layout {
            scroll_up_area: Rect {
                x: tabs_area.x,
                y: tabs_area.y,
                width: tabs_area.width,
                height: scroll_up_offset,
            },
            select_area: Rect {
                x: tabs_area.x,
                y: tabs_area.y.saturating_add(scroll_up_offset),
                width: tabs_area.width,
                height: tabs_area.height.saturating_sub(scroll_up_offset).saturating_sub(
                    scroll_down_offset,
                ),
            },
            scroll_down_area: Rect {
                x: tabs_area.x,
                y: tabs_area.y.saturating_add(tabs_area.height).saturating_sub(
                    scroll_down_offset,
                ),
                width: tabs_area.width,
                height: scroll_down_offset,
            },
        }
    }

    /// What a mouse event asks of these tabs.
    pub open spec fn action_of(&self, area: Rect, event: MouseEvent) -> Option<MouseAction> {
        tab_action(self.block, self.titles@.len() as int, self.scroll, area, event)
    }

    pub fn on_mouse_event(&self, area: Rect, event: &MouseEvent) -> (action: Option<MouseAction>)
        requires
            self.frames(area),
        ensures
            action == self.action_of(area, *event),
    {
        let (x, y) = mouse_event_coords(event);
        let layout = self.layout(area);
        if contains_point(layout.scroll_up_area, x, y) {
            Some(MouseAction::ScrollUp)
        } else if contains_point(layout.scroll_down_area, x, y) {
            Some(MouseAction::ScrollDown)
        } else if contains_point(layout.select_area, x, y) && self.titles.len() > 0 {
            let offset = (y - layout.select_area.y) as usize;
            let last = self.titles.len() - 1;
            if offset > last || self.scroll > last - offset {
                Some(MouseAction::Select(last))
            } else {
                Some(MouseAction::Select(self.scroll + offset))
            }
        } else {
            None
        }
    }
}

/// The number of grapheme clusters of a text, as `unicode_segmentation` counts them.
pub uninterp spec fn grapheme_count(text: Seq<char>) -> usize;

/// Counts the extended grapheme clusters of a text with
/// `UnicodeSegmentation::graphemes`.
#[verifier::external_body]
fn count_graphemes(text: &str) -> (count: usize)
    ensures
        count == grapheme_count(text@),
{
    unicode_segmentation::UnicodeSegmentation::graphemes(text, true).count()
}

/// A count as a number of cells, which there are at most 65535 of.
pub open spec fn cells(count: usize) -> u16 {
    if count > u16::MAX {
        u16::MAX
    } else {
        count as u16
    }
}

fn to_cells(count: usize) -> (n: u16)
    ensures
        n == cells(count),
{
    if count > 0xffff {
        0xffff
    } else {
        count as u16
    }
}

/// Where the parts of a title go on its line: for each symbol the column it starts
/// in, if it is drawn; how many cells the text may take; and the column of the
/// ellipsis, if the text is cut.
#[derive(Clone, Debug, PartialEq, Eq)]
pub struct TitleLayout {
    pub symbols: Vec<Option<u16>>,
    pub text_width: u16,
    pub ellipsis: Option<u16>,
}

/// The column that a symbol of `count` cells starts in when it ends at the right end
/// of an area, if it starts within the area.
pub open spec fn symbol_column(area: Rect, count: u16) -> Option<u16> {
    if area.right() - count >= area.x && area.right() - count <= u16::MAX {
        Some((area.right() - count) as u16)
    } else {
        None
    }
}

/// The area that is left for the rest of a title after a symbol of `count` cells and
/// the cell that separates it.
pub open spec fn narrowed(area: Rect, count: u16) -> Rect {
    Rect { width: minus(minus(area.width, count), 1), ..area }
}

/// The area that is left for the text after the first `upto` symbols.
pub open spec fn after_symbols(area: Rect, counts: Seq<usize>, upto: int) -> Rect
    decreases upto,
{
    if upto <= 0 {
        area
    } else {
        narrowed(after_symbols(area, counts, upto - 1), cells(counts[upto - 1]))
    }
}

/// Where the text of a title goes in the area that the symbols leave: a text of
/// `count` cells that fits is drawn as it is; any other is cut one cell earlier, and
/// an ellipsis is put in the last cell.
pub open spec fn text_place(room: Rect, count: usize) -> (u16, Option<u16>) {
    if count <= room.width {
        (room.width, None)
    } else {
        (
            minus(room.width, 1),
            Some(minus(plus(room.x, room.width), 1)),
        )
    }
}

impl Title {
    /// The numbers of grapheme clusters of the symbols.
    pub open spec fn symbol_counts(&self) -> Seq<usize> {
        self.symbols@.map_values(|s: Symbol| grapheme_count(s.text@))
    }

    /// Lays the title out on the first line of an area: the symbols from the right
    /// end, each followed by a free cell, and the text in what is left.
    pub fn layout(&self, area: Rect) -> (layout: TitleLayout)
        ensures
            layout.symbols@.len() == self.symbols@.len(),
            forall|k: int|
                0 <= k < layout.symbols@.len() ==> #[trigger] layout.symbols@[k] == symbol_column(
                    after_symbols(area, self.symbol_counts(), k),
                    cells(self.symbol_counts()[k]),
                ),
            (layout.text_width, layout.ellipsis) == text_place(
                after_symbols(area, self.symbol_counts(), self.symbols@.len() as int),
                grapheme_count(self.text@),
            ),
    {
        let mut symbols: Vec<Option<u16>> = Vec::new();
        let mut room = area;
        let mut k: usize = 0;
        while k < self.symbols.len()
            invariant
                k <= self.symbols@.len(),
                symbols@.len() == k,
                room == after_symbols(area, self.symbol_counts(), k as int),
                forall|j: int|
                    0 <= j < k ==> #[trigger] symbols@[j] == symbol_column(
                        after_symbols(area, self.symbol_counts(), j),
                        cells(self.symbol_counts()[j]),
                    ),
            decreases self.symbols@.len() - k,
        {
            let count = to_cells(count_graphemes(self.symbols[k].text.as_str()));
            let right: u32 = room.x as u32 + room.width as u32;
            let column = if right >= count as u32 && right - count as u32 >= room.x as u32 && right
                - count as u32 <= 0xffff {
                Some((right - count as u32) as u16)
            } else {
                None
            };
            symbols.push(column);
            room = Rect {
                x: room.x,
                y: room.y,
                width: room.width.saturating_sub(count).saturating_sub(1),
                height: room.height,
            };
            k += 1;
        }
        let count = count_graphemes(self.text.as_str());
        if count <= room.width as usize {
            TitleLayout { symbols, text_width: room.width, ellipsis: None }
        } else {
            TitleLayout {
                symbols,
                text_width: room.width.saturating_sub(1),
                ellipsis: Some(room.x.saturating_add(room.width).saturating_sub(1)),
            }
        }
    }
}

/// Where a tab is drawn, and in which style.
#[derive(Clone, Copy, Debug, PartialEq, Eq, Structural)]
pub struct TabRow {
    pub index: usize,
    pub area: Rect,
    pub style: Style,
}

/// What is drawn of a column of tabs: the arrows on the lines to scroll, each with
/// the cell it is drawn in, the area of the tabs, and the tabs that are drawn.
#[derive(Clone, Debug, PartialEq, Eq)]
pub struct TabsPlan {
    pub up_arrow: Option<(u16, u16)>,
    pub down_arrow: Option<(u16, u16)>,
    pub select_area: Rect,
    pub rows: Vec<TabRow>,
}

/// The cell in the middle of the first line of an area, if the area is not empty.
pub open spec fn arrow_cell(area: Rect) -> Option<(u16, u16)> {
    if area.width > 0 && area.height > 0 {
        Some((plus(area.x, area.width / 2), area.y))
    } else {
        None
    }
}

fn arrow_in(area: Rect) -> (cell: Option<(u16, u16)>)
    ensures
        cell == arrow_cell(area),
{
    if area.width > 0 && area.height > 0 {
        Some((area.x.saturating_add(area.width / 2), area.y))
    } else {
        None
    }
}

/// The line of a tab within the area of the tabs: the tabs from the first one shown
/// on follow each other; those scrolled out share the first line.
pub open spec fn tab_line(select: Rect, scroll: usize, index: usize) -> u16 {
    plus(
        select.y,
        cells(
            if index > scroll {
                (index - scroll) as usize
            } else {
                0
            },
        ),
    )
}

/// Whether a tab is drawn: only where the area of the tabs is not empty and reaches
/// down to the line of the tab.
pub open spec fn tab_shown(select: Rect, scroll: usize, index: usize) -> bool {
    select.width > 0 && tab_line(select, scroll, index) < select.y + select.height
}

/// The row of a tab.
pub open spec fn tab_row(
    select: Rect,
    scroll: usize,
    selected: usize,
    style: Style,
    highlight_style: Style,
    index: usize,
) -> TabRow {
    TabRow {
        index,
        area: Rect {
            x: select.x,
            y: tab_line(select, scroll, index),
            width: select.width,
            height: 1,
        },
        style: if index == selected {
            highlight_style
        } else {
            style
        },
    }
}

/// The rows of the first `upto` tabs that are drawn.
pub open spec fn tab_rows(
    select: Rect,
    scroll: usize,
    selected: usize,
    style: Style,
    highlight_style: Style,
    upto: int,
) -> Seq<TabRow>
    decreases upto,
{
    if upto <= 0 {
        Seq::empty()
    } else {
        let before = tab_rows(select, scroll, selected, style, highlight_style, upto - 1);
        if tab_shown(select, scroll, (upto - 1) as usize) {
            before.push(
                tab_row(select, scroll, selected, style, highlight_style, (upto - 1) as usize),
            )
        } else {
            before
        }
    }
}

impl VerticalTabs {
    /// Plans the drawing of the tabs in an area: the arrows, where there is something
    /// to scroll to, and a row for each tab that is drawn, the selected one in the
    /// highlight style. Nothing is drawn of the tabs where their area is empty.
    pub fn plan(&self, area: Rect) -> (plan: TabsPlan)
        requires
            self.frames(area),
        ensures
            plan.up_arrow == arrow_cell(self.parts(area).scroll_up_area),
            plan.down_arrow == arrow_cell(self.parts(area).scroll_down_area),
            plan.select_area == self.parts(area).select_area,
            plan.rows@ == if plan.select_area.width > 0 && plan.select_area.height > 0 {
                tab_rows(
                    plan.select_area,
                    self.scroll,
                    self.selected,
                    self.style,
                    self.highlight_style,
                    self.titles@.len() as int,
                )
            } else {
                Seq::empty()
            },
    {
        let layout = self.layout(area);
        let select = layout.select_area;
        let mut rows: Vec<TabRow> = Vec::new();
        if select.width > 0 && select.height > 0 {
            let mut i: usize = 0;
            while i < self.titles.len()
                invariant
                    i <= self.titles@.len(),
                    select.width > 0,
                    rows@ == tab_rows(
                        select,
                        self.scroll,
                        self.selected,
                        self.style,
                        self.highlight_style,
                        i as int,
                    ),
                decreases self.titles@.len() - i,
            {
                let offset = to_cells(
                    if i > self.scroll {
                        i - self.scroll
                    } else {
                        0
                    },
                );
                let y = select.y.saturating_add(offset);
                if (y as u32) < select.y as u32 + select.height as u32 {
                    rows.push(
                        TabRow {
                            index: i,
                            area: Rect { x: select.x, y, width: select.width, height: 1 },
                            style: if i == self.selected {
                                self.highlight_style
                            } else {
                                self.style
                            },
                        },
                    );
                }
                i += 1;
            }
        }
        TabsPlan {
            up_arrow: arrow_in(layout.scroll_up_area),
            down_arrow: arrow_in(layout.scroll_down_area),
            select_area: select,
            rows,
        }
    }
}

} // verus!
