use vstd::prelude::*;
use vstd::string::StringExecFns;
use tui::style::Style;
use tui::widgets::Block;
use crate::geometry::Rect;

verus! {

/// The style of terminal cells, as the widget library holds it. It is carried
/// through here and never looked into.
#[verifier::external_type_specification]
#[verifier::external_body]
pub struct ExStyle(tui::style::Style);

/// A frame around a widget, as the widget library holds it. It is carried
/// through here and never looked into.
#[verifier::external_type_specification]
#[verifier::external_body]
pub struct ExBlock<'a>(tui::widgets::Block<'a>);

/// The number of terminal columns that a text takes when displayed.
pub uninterp spec fn display_width(text: Seq<char>) -> nat;

/// Measures a text. Trusted: the result is what `UnicodeWidthStr::width` of
/// the `unicode-width` crate gives for the text, a function of its
/// characters alone.
#[verifier::external_body]
fn str_width(text: &str) -> (w: usize)
    ensures
        w as nat == display_width(text@),
{
    unicode_width::UnicodeWidthStr::width(text)
}

/// The style that nothing has been set in. Trusted: the value of
/// `Style::default()`.
#[verifier::external_body]
fn plain_style() -> (r: Style) {
    Style::default()
}

/// The divider after the selected tab: a filled arrow to the right.
pub const RIGHT_ARROW: &'static str = "\u{E0B0}";

/// The divider between tabs that are not selected: an outlined arrow to the
/// right.
pub const RIGHT_ARROW_LINE: &'static str = "\u{E0B1}";

/// A bar of tabs, one title for each, with dividers between them.
#[derive(Debug)]
pub struct Tabs<'a> {
    /// A block to wrap this widget in if necessary
    block: Option<Block<'a>>,
    /// One title for each tab
    titles: &'a [String],
    /// The index of the selected tab
    selected: usize,
    /// The style used to draw the text
    style: Style,
    /// The style used to display the selected item
    highlight_style: Style,
    /// Tab divider
    divider: &'a str,
    /// Tab inactive divider
    divider_inactive: &'a str,
    /// divider style
    divider_style: Style,
}

/// What a `Tabs` stands for.
pub struct TabsModel<'a> {
    pub block: Option<Block<'a>>,
    pub titles: Seq<Seq<char>>,
    pub selected: usize,
    pub style: Style,
    pub highlight_style: Style,
    pub divider: Seq<char>,
    pub divider_inactive: Seq<char>,
    pub divider_style: Style,
}

/// What a `Cell` stands for.
pub struct CellView {
    pub x: int,
    pub y: int,
    pub text: Seq<char>,
    pub style: Style,
}

/// A text to write into the terminal buffer: where it starts, and in which
/// style.
#[derive(Debug)]
pub struct Cell {
    pub x: u16,
    pub y: u16,
    pub text: String,
    pub style: Style,
}

impl View for Cell {
    type V = CellView;

    open spec fn view(&self) -> CellView {
        CellView { x: self.x as int, y: self.y as int, text: self.text@, style: self.style }
    }
}

impl DeepView for Cell {
    type V = CellView;

    open spec fn deep_view(&self) -> CellView {
        self@
    }
}

/// A title as it is written on the bar: with a space on either side.
pub open spec fn padded(txt: Seq<char>) -> Seq<char> {
    " "@ + txt + " "@
}

/// Puts a space on either side of a title.
pub fn add_padding(txt: &str) -> (r: String)
    ensures
        r@ == padded(txt@),
{
    let mut out = " ".to_owned();
    out.append(txt);
    out.append(" ");
    out
}

impl<'a> TabsModel<'a> {
    /// The cell of the title of tab `i`, at column `x`: the selected tab is
    /// written in the highlight style.
    pub open spec fn title_cell(self, area: Rect, i: int, x: int) -> CellView {
        CellView {
            x,
            y: area.y as int,
            text: padded(self.titles[i]),
            style: if i == self.selected {
                self.highlight_style
            } else {
                self.style
            },
        }
    }

    /// The cell of the divider after tab `i`, at column `x`: after the
    /// selected tab stands the divider, in the style of the text; after any
    /// other tab stands the inactive divider, in the style of dividers.
    pub open spec fn divider_cell(self, area: Rect, i: int, x: int) -> CellView {
        if i == self.selected {
            CellView { x, y: area.y as int, text: self.divider, style: self.style }
        } else {
            CellView {
                x,
                y: area.y as int,
                text: self.divider_inactive,
                style: self.divider_style,
            }
        }
    }

    /// The cells from tab `i` on, with the title of that tab at column `x`.
    /// A title starts where the one before it ended: after the title's own
    /// width and its two spaces, the divider's width, and one more column.
    /// Nothing is written at or beyond the right edge of the area.
    pub open spec fn cells_from(self, area: Rect, i: int, x: int) -> Seq<CellView>
        decreases self.titles.len() - i,
    {
        if i < 0 || i >= self.titles.len() || x >= area.spec_right() {
            Seq::empty()
        } else {
            let after_title = x + display_width(self.titles[i]) + 2;
            if after_title >= area.spec_right() {
                seq![self.title_cell(area, i, x)]
            } else {
                seq![self.title_cell(area, i, x), self.divider_cell(area, i, after_title)]
                    + self.cells_from(
                    area,
                    i + 1,
                    after_title + display_width(self.divider) + 1,
                )
            }
        }
    }

    /// What is written into an area: nothing if the area has no row, and
    /// else the tabs from the first on, starting at the left edge.
    pub open spec fn cells(self, area: Rect) -> Seq<CellView> {
        if area.height < 1 {
            Seq::empty()
        } else {
            self.cells_from(area, 0, area.x as int)
        }
    }
}

impl<'a> View for Tabs<'a> {
    type V = TabsModel<'a>;

    closed spec fn view(&self) -> TabsModel<'a> {
        TabsModel {
            block: self.block,
            titles: self.titles@.map_values(|t: String| t@),
            selected: self.selected,
            style: self.style,
            highlight_style: self.highlight_style,
            divider: self.divider@,
            divider_inactive: self.divider_inactive@,
            divider_style: self.divider_style,
        }
    }
}

impl<'a> Default for Tabs<'a> {
    /// A bar without tabs and without a block, with the arrows as dividers
    /// and one and the same style, in which nothing is set, for everything.
    fn default() -> (r: Tabs<'a>)
        ensures
            r@.block is None,
            r@.titles == Seq::<Seq<char>>::empty(),
            r@.selected == 0,
            r@.divider == RIGHT_ARROW@,
            r@.divider_inactive == RIGHT_ARROW_LINE@,
            r@.highlight_style == r@.style,
            r@.divider_style == r@.style,
    {
        let plain = plain_style();
        let r = Tabs {
            block: None,
            titles: &[],
            selected: 0,
            style: plain,
            highlight_style: plain,
            divider: RIGHT_ARROW,
            divider_inactive: RIGHT_ARROW_LINE,
            divider_style: plain,
        };
        assert(r@.titles =~= Seq::<Seq<char>>::empty());
        r
    }
}

impl<'a> Tabs<'a> {
    /// Wraps the bar in a block.
    pub fn block(self, block: Block<'a>) -> (r: Tabs<'a>)
        ensures
            r@ == (TabsModel { block: Some(block), ..self@ }),
    {
        let mut this = self;
        this.block = Some(block);
        this
    }

    /// Sets the titles, one for each tab.
    pub fn titles(self, titles: &'a [String]) -> (r: Tabs<'a>)
        ensures
            r@ == (TabsModel { titles: titles@.map_values(|t: String| t@), ..self@ }),
    {
        let mut this = self;
        this.titles = titles;
        this
    }

    /// Sets which tab is the selected one, by its index.
    pub fn select(self, selected: usize) -> (r: Tabs<'a>)
        ensures
            r@ == (TabsModel { selected, ..self@ }),
    {
        let mut this = self;
        this.selected = selected;
        this
    }

    /// Sets the style of the text.
    pub fn style(self, style: Style) -> (r: Tabs<'a>)
        ensures
            r@ == (TabsModel { style, ..self@ }),
    {
        let mut this = self;
        this.style = style;
        this
    }

    /// Sets the style of the selected tab's title.
    pub fn highlight_style(self, style: Style) -> (r: Tabs<'a>)
        ensures
            r@ == (TabsModel { highlight_style: style, ..self@ }),
    {
        let mut this = self;
        this.highlight_style = style;
        this
    }

    /// Sets the divider that stands after the selected tab.
    pub fn divider(self, divider: &'a str) -> (r: Tabs<'a>)
        ensures
            r@ == (TabsModel { divider: divider@, ..self@ }),
    {
        let mut this = self;
        this.divider = divider;
        this
    }

    /// Sets the style of the dividers between tabs that are not selected.
    pub fn divider_style(self, style: Style) -> (r: Tabs<'a>)
        ensures
            r@ == (TabsModel { divider_style: style, ..self@ }),
    {
        let mut this = self;
        this.divider_style = style;
        this
    }

    /// Takes the block out of the widget, for the caller to draw.
    pub fn take_block(&mut self) -> (r: Option<Block<'a>>)
        ensures
            r == old(self)@.block,
            final(self)@ == (TabsModel { block: None, ..old(self)@ }),
    {
        self.block.take()
    }

    /// The style of the area that the bar is drawn in.
    pub fn base_style(&self) -> (r: Style)
        ensures
            r == self@.style,
    {
        self.style
    }

    /// Lays the bar out in `area` and returns what is to be written there,
    /// from left to right.
    pub fn render(&self, area: Rect) -> (r: Vec<Cell>)
        ensures
            r.deep_view() == self@.cells(area),
    {
        let mut out: Vec<Cell> = Vec::new();
        assert(out.deep_view() =~= Seq::<CellView>::empty());
        if area.height < 1 {
            return out;
        }
        let right: u64 = area.right() as u64;
        let top = area.top();
        let divider_width: u64 = str_width(self.divider) as u64;
        let mut x: u64 = area.left() as u64;
        let ghost mut pos: int = area.x as int;
        let mut i: usize = 0;
        while i < self.titles.len()
            invariant
                i <= self.titles.len(),
                right == area.spec_right(),
                top == area.y,
                divider_width == display_width(self@.divider),
                pos >= 0,
                x as int == if pos > u64::MAX {
                    u64::MAX as int
                } else {
                    pos
                },
                self@.cells(area) == out.deep_view() + self@.cells_from(area, i as int, pos),
            decreases self.titles.len() - i,
        {
            let ghost before = out.deep_view();
            if x >= right {
                assert(out.deep_view() + Seq::<CellView>::empty() =~= out.deep_view());
                return out;
            }
            let title: &str = self.titles[i].as_str();
            let title_style = if i == self.selected {
                self.highlight_style
            } else {
                self.style
            };
            out.push(Cell { x: x as u16, y: top, text: add_padding(title), style: title_style });
            let ghost title_cell = self@.title_cell(area, i as int, pos);
            assert(out.deep_view() =~= before.push(title_cell));
            x = x.saturating_add(str_width(title) as u64).saturating_add(2);
            proof {
                pos = pos + display_width(self@.titles[i as int]) + 2;
            }
            if x >= right {
                assert(before + seq![title_cell] =~= before.push(title_cell));
                return out;
            }
            let cell = if i == self.selected {
                Cell { x: x as u16, y: top, text: self.divider.to_owned(), style: self.style }
            } else {
                Cell {
                    x: x as u16,
                    y: top,
                    text: self.divider_inactive.to_owned(),
                    style: self.divider_style,
                }
            };
            let ghost divider_cell = self@.divider_cell(area, i as int, pos);
            out.push(cell);
            assert(out.deep_view() =~= before.push(title_cell).push(divider_cell));
            x = x.saturating_add(divider_width).saturating_add(1);
            proof {
                assert(before + (seq![title_cell, divider_cell] + self@.cells_from(
                    area,
                    i + 1,
                    pos + display_width(self@.divider) + 1,
                )) =~= before.push(title_cell).push(divider_cell) + self@.cells_from(
                    area,
                    i + 1,
                    pos + display_width(self@.divider) + 1,
                ));
                pos = pos + display_width(self@.divider) + 1;
            }
            i += 1;
        }
        assert(out.deep_view() + Seq::<CellView>::empty() =~= out.deep_view());
        out
    }
}

} // verus!
