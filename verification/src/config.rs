//! Named arena-size presets and the display-capacity arithmetic for them.
//!
//! The display collaborator draws a two-cell-wide border around the arena
//! and a three-line info panel above it, so a preset needs `width + 2`
//! columns and `height + 5` rows of terminal to fit, and the arena is
//! centered in whatever space is left.

use vstd::prelude::*;

verus! {

/// Columns of terminal a preset needs beyond its arena width: the border.
pub const BORDER_COLUMNS: i32 = 2;

/// Rows of terminal a preset needs beyond its arena height: the info panel
/// and the border.
pub const PANEL_AND_BORDER_ROWS: i32 = 5;

/// The selectable arena sizes.
#[derive(Clone, Copy, Debug, PartialEq, Eq, Structural)]
pub enum FieldSize {
    Tiny,
    Small,
    Medium,
    Large,
}

impl FieldSize {
    /// Arena width of the preset.
    pub open spec fn spec_width(self) -> int {
        match self {
            FieldSize::Tiny => 20,
            FieldSize::Small => 30,
            FieldSize::Medium => 40,
            FieldSize::Large => 60,
        }
    }

    /// Arena height of the preset.
    pub open spec fn spec_height(self) -> int {
        match self {
            FieldSize::Tiny => 10,
            FieldSize::Small => 20,
            FieldSize::Medium => 30,
            FieldSize::Large => 40,
        }
    }

    pub fn width(&self) -> (w: i32)
        ensures
            w == self.spec_width(),
    {
        match self {
            FieldSize::Tiny => 20,
            FieldSize::Small => 30,
            FieldSize::Medium => 40,
            FieldSize::Large => 60,
        }
    }

    pub fn height(&self) -> (h: i32)
        ensures
            h == self.spec_height(),
    {
        match self {
            FieldSize::Tiny => 10,
            FieldSize::Small => 20,
            FieldSize::Medium => 30,
            FieldSize::Large => 40,
        }
    }

    /// The name under which the menu offers the preset.
    pub open spec fn spec_label(self) -> Seq<char> {
        match self {
            FieldSize::Tiny => "Tiny"@,
            FieldSize::Small => "Small"@,
            FieldSize::Medium => "Medium"@,
            FieldSize::Large => "Large"@,
        }
    }

    pub fn label(&self) -> (s: &str)
        ensures
            s@ == self.spec_label(),
    {
        match self {
            FieldSize::Tiny => "Tiny",
            FieldSize::Small => "Small",
            FieldSize::Medium => "Medium",
            FieldSize::Large => "Large",
        }
    }

    /// Every preset is a valid arena for `GameState::new`.
    pub proof fn lemma_valid_arena(self)
        ensures
            4 <= self.spec_width(),
            1 <= self.spec_height(),
            self.spec_width() * self.spec_height() <= crate::game::MAX_ARENA_AREA,
    {
    }

    /// Terminal columns the preset needs in all.
    pub fn required_width(&self) -> (w: i32)
        ensures
            w == self.spec_width() + BORDER_COLUMNS,
    {
        self.width() + BORDER_COLUMNS
    }

    /// Terminal rows the preset needs in all.
    pub fn required_height(&self) -> (h: i32)
        ensures
            h == self.spec_height() + PANEL_AND_BORDER_ROWS,
    {
        self.height() + PANEL_AND_BORDER_ROWS
    }

    /// Whether a terminal of `max_x` columns by `max_y` rows can show the
    /// preset together with its border and info panel.
    pub fn fits(&self, max_x: i32, max_y: i32) -> (r: bool)
        ensures
            r == (max_x >= self.spec_width() + BORDER_COLUMNS && max_y >= self.spec_height()
                + PANEL_AND_BORDER_ROWS),
    {
        max_x >= self.required_width() && max_y >= self.required_height()
    }

    /// The presets, in the order the menu offers them.
    pub fn all() -> (v: Vec<FieldSize>)
        ensures
            v@ == seq![FieldSize::Tiny, FieldSize::Small, FieldSize::Medium, FieldSize::Large],
    {
        let mut v: Vec<FieldSize> = Vec::new();
        v.push(FieldSize::Tiny);
        v.push(FieldSize::Small);
        v.push(FieldSize::Medium);
        v.push(FieldSize::Large);
        proof {
            assert(v@ =~= seq![
                FieldSize::Tiny,
                FieldSize::Small,
                FieldSize::Medium,
                FieldSize::Large,
            ]);
        }
        v
    }
}

/// A fresh simulation over a preset's arena.
pub fn new_game(size: FieldSize) -> (g: crate::game::GameState)
    ensures
        g.wf(),
        g.game_width == size.spec_width(),
        g.game_height == size.spec_height(),
        g.score == 0,
        g.status == crate::game::GameStatus::Playing,
        g.waiting_for_start,
        g.snake@ == crate::game::initial_snake(size.spec_width(), size.spec_height()),
{
    proof {
        size.lemma_valid_arena();
    }
    crate::game::GameState::new(size.width(), size.height())
}

/// Where the top-left corner of the framed game area goes so that it sits
/// centered in a terminal of `max_x` by `max_y` cells; a terminal too small
/// to center in pins the area to the edge instead.
pub fn calculate_offsets(width: i32, height: i32, max_x: i32, max_y: i32) -> (off: (i32, i32))
    requires
        0 <= width <= 1000000,
        0 <= height <= 1000000,
        -1000000 <= max_x <= 1000000,
        -1000000 <= max_y <= 1000000,
    ensures
        off.0 == if max_x >= width + BORDER_COLUMNS {
            (max_x - (width + BORDER_COLUMNS)) / 2
        } else {
            0
        },
        off.1 == if max_y >= height + PANEL_AND_BORDER_ROWS {
            (max_y - (height + PANEL_AND_BORDER_ROWS)) / 2
        } else {
            0
        },
{
    let total_width = width + BORDER_COLUMNS;
    let total_height = height + PANEL_AND_BORDER_ROWS;
    let off_x: i32 = if max_x >= total_width {
        (max_x - total_width) / 2
    } else {
        0
    };
    let off_y: i32 = if max_y >= total_height {
        (max_y - total_height) / 2
    } else {
        0
    };
    (off_x, off_y)
}

} // verus!
