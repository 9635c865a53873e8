//! What the boxes, hearts and menus of the screen are made of.
//!
//! Nothing is drawn here. These functions say which rows of text a box
//! consists of, how many hearts are full, and what the lines of a menu say;
//! the caller puts them on the screen.

use crate::ui::menu::SelectionMenu;
use crate::ui::text::lines_view;
use vstd::prelude::*;

verus! {

/// `n` times the text `unit`.
pub open spec fn repeated(unit: Seq<char>, n: nat) -> Seq<char>
    decreases n,
{
    if n == 0 {
        Seq::empty()
    } else {
        repeated(unit, (n - 1) as nat) + unit
    }
}

/// `n` times the text `unit`.
pub fn repeat_text(unit: &str, n: usize) -> (r: String)
    ensures
        r@ == repeated(unit@, n as nat),
{
    let mut out = String::new();
    let mut i: usize = 0;
    while i < n
        invariant
            i <= n,
            out@ == repeated(unit@, i as nat),
        decreases n - i,
    {
        out = out.concat(unit);
        i += 1;
    }
    out
}

/// The width of the inside of a box that is `width` wide.
pub open spec fn inner_width(width: int) -> nat {
    if width >= 2 {
        (width - 2) as nat
    } else {
        0
    }
}

/// The top and the bottom row of a box.
pub open spec fn border_row(width: int) -> Seq<char> {
    "+"@ + repeated("-"@, inner_width(width)) + "+"@
}

/// A row of a box between its top and its bottom.
pub open spec fn middle_row(width: int) -> Seq<char> {
    "|"@ + repeated(" "@, inner_width(width)) + "|"@
}

/// The rows of a box, from top to bottom. A box always has its top row; one
/// that is at least two rows high has a bottom row, and middle rows between
/// the two.
pub open spec fn box_rows(width: int, height: int) -> Seq<Seq<char>> {
    if height <= 1 {
        seq![border_row(width)]
    } else {
        Seq::new(
            height as nat,
            |i: int|
                if i == 0 || i == height - 1 {
                    border_row(width)
                } else {
                    middle_row(width)
                },
        )
    }
}

/// The rows of a box that is `width` wide and `height` high.
pub fn box_lines(width: usize, height: usize) -> (rows: Vec<String>)
    ensures
        lines_view(rows@) == box_rows(width as int, height as int),
{
    let inner = if width >= 2 {
        width - 2
    } else {
        0
    };
    let mut rows: Vec<String> = Vec::new();
    rows.push("+".to_owned().concat(repeat_text("-", inner).as_str()).concat("+"));
    if height <= 1 {
        assert(lines_view(rows@) =~= box_rows(width as int, height as int));
        return rows;
    }
    let mut i: usize = 1;
    while i < height - 1
        invariant
            1 <= i <= height - 1,
            inner == inner_width(width as int),
            rows@.len() == i,
            rows@[0]@ == border_row(width as int),
            forall|k: int| 1 <= k < i ==> (#[trigger] rows@[k])@ == middle_row(width as int),
        decreases height - 1 - i,
    {
        rows.push("|".to_owned().concat(repeat_text(" ", inner).as_str()).concat("|"));
        i += 1;
    }
    rows.push("+".to_owned().concat(repeat_text("-", inner).as_str()).concat("+"));
    assert(lines_view(rows@) =~= box_rows(width as int, height as int));
    rows
}

/// A tenth of a score, cut towards zero.
pub open spec fn tenth(score: int) -> int {
    if score >= 0 {
        score / 10
    } else {
        -((-score) / 10)
    }
}

/// How many of `max_hearts` hearts are full at a score: one for every full
/// ten points, and no more than there are hearts.
pub open spec fn hearts_for(score: int, max_hearts: int) -> int {
    if tenth(score) < max_hearts {
        tenth(score)
    } else {
        max_hearts
    }
}

/// How many of `max_hearts` hearts are full at a score.
pub fn full_hearts(score: i32, max_hearts: i32) -> (r: i32)
    ensures
        r == hearts_for(score as int, max_hearts as int),
{
    let wide: i64 = score as i64;
    let t: i64 = if wide >= 0 {
        wide / 10
    } else {
        -((-wide) / 10)
    };
    if t < max_hearts as i64 {
        t as i32
    } else {
        max_hearts
    }
}

/// The line of the item at `index` of a menu: the item after a mark that
/// shows whether the cursor is on it.
pub open spec fn menu_line(items: Seq<Seq<char>>, selected: int, index: int) -> Seq<char> {
    if index == selected {
        "> "@ + items[index]
    } else {
        "  "@ + items[index]
    }
}

/// The lines of a menu, one for each item.
pub fn menu_lines(menu: &SelectionMenu) -> (lines: Vec<String>)
    ensures
        lines@.len() == menu.items@.len(),
        forall|i: int|
            0 <= i < lines@.len() ==> (#[trigger] lines@[i])@ == menu_line(
                lines_view(menu.items@),
                menu.selected as int,
                i,
            ),
{
    let mut lines: Vec<String> = Vec::new();
    let mut i: usize = 0;
    while i < menu.items.len()
        invariant
            i <= menu.items.len(),
            lines@.len() == i,
            forall|k: int|
                0 <= k < i ==> (#[trigger] lines@[k])@ == menu_line(
                    lines_view(menu.items@),
                    menu.selected as int,
                    k,
                ),
        decreases menu.items.len() - i,
    {
        let prefix = if i == menu.selected {
            "> "
        } else {
            "  "
        };
        lines.push(prefix.to_owned().concat(menu.items[i].as_str()));
        i += 1;
    }
    lines
}

} // verus!
