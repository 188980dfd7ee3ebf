//! The state of the options menu: which row is selected, what each option is
//! set to, and what a key press does to either.

use vstd::prelude::*;

verus! {

/// The last row of the menu, the one that starts the game. The rows before
/// it hold the graphics, shadows and version options, in this order.
pub const START_ROW: usize = 3;

/// The highest setting of the graphics option.
pub const GRAPHICS_MAX: usize = 2;

/// What a key press asks of the selected row.
#[derive(Debug, Copy, Clone, Eq, PartialEq, Hash, Structural)]
pub enum OptionChange {
    Increase,
    Decrease,
    Select,
}

/// The menu keys that went down in one frame.
#[derive(Debug, Copy, Clone, Eq, PartialEq, Hash, Structural)]
pub struct MenuPresses {
    pub up: bool,
    pub down: bool,
    pub right: bool,
    pub left: bool,
    pub select: bool,
}

/// The buttons of one game controller that went down in one frame.
#[derive(Debug, Copy, Clone, Eq, PartialEq, Hash, Structural)]
pub struct ControllerPresses {
    pub up: bool,
    pub down: bool,
    pub left: bool,
    pub right: bool,
    pub action_down: bool,
    pub start: bool,
}

impl MenuPresses {
    /// The menu keys that the buttons of a controller stand for: the four
    /// directions as they are, and either of the action and start buttons
    /// for select.
    pub open spec fn of_controller(buttons: ControllerPresses) -> MenuPresses {
        MenuPresses {
            up: buttons.up,
            down: buttons.down,
            right: buttons.right,
            left: buttons.left,
            select: buttons.action_down || buttons.start,
        }
    }

    /// Reads the buttons of a controller as menu keys.
    pub fn handle_controller(buttons: ControllerPresses) -> (pressed: MenuPresses)
        ensures
            pressed == Self::of_controller(buttons),
    {
        MenuPresses {
            up: buttons.up,
            down: buttons.down,
            right: buttons.right,
            left: buttons.left,
            select: buttons.action_down || buttons.start,
        }
    }
}

/// What one frame of key presses leads to, besides moving the selection.
pub struct MenuStep {
    /// How often the selection moved, each move being worth one sound.
    pub moves: u8,
    /// The changes asked of the selected row, in the order in which they are
    /// to be applied.
    pub changes: Vec<OptionChange>,
}

/// The settings a game is started with.
#[derive(Debug, Copy, Clone, Eq, PartialEq, Hash, Structural)]
pub struct GameSettings {
    pub high_graphics: bool,
    pub shadows: bool,
    pub latest_version: bool,
}

/// What applying one change to the menu did.
#[derive(Debug, Copy, Clone, Eq, PartialEq, Hash, Structural)]
pub enum OptionOutcome {
    /// The change means nothing on this row.
    Ignored,
    /// An option took its next value.
    Changed,
    /// The game is to be started with these settings.
    StartGame(GameSettings),
}

/// The row above `row`, the last row being above the first.
pub open spec fn row_above(row: int) -> int {
    if row == 0 {
        START_ROW as int
    } else {
        row - 1
    }
}

/// The row below `row`, the first row being below the last.
pub open spec fn row_below(row: int) -> int {
    if row == START_ROW {
        0
    } else {
        row + 1
    }
}

/// The row selected after one frame of presses: up is taken before down.
pub open spec fn row_after(row: int, pressed: MenuPresses) -> int {
    let lifted = if pressed.up {
        row_above(row)
    } else {
        row
    };
    if pressed.down {
        row_below(lifted)
    } else {
        lifted
    }
}

/// The changes that one frame of presses asks for: right increases, left
/// decreases, and select selects, in this order.
pub open spec fn changes_of(pressed: MenuPresses) -> Seq<OptionChange> {
    let increase = if pressed.right {
        seq![OptionChange::Increase]
    } else {
        Seq::empty()
    };
    let decrease = if pressed.left {
        seq![OptionChange::Decrease]
    } else {
        Seq::empty()
    };
    let select = if pressed.select {
        seq![OptionChange::Select]
    } else {
        Seq::empty()
    };
    increase + decrease + select
}

/// The selected row of the menu, always one of its four rows.
pub struct CurrentOption {
    row: usize,
}

impl CurrentOption {
    #[verifier::type_invariant]
    spec fn in_menu(&self) -> bool {
        self.row <= START_ROW
    }

    /// The selected row.
    pub closed spec fn index(&self) -> int {
        self.row as int
    }

    /// The selection as it is when the menu opens: on the row that starts the
    /// game.
    pub fn new() -> (current: CurrentOption)
        ensures
            current.index() == START_ROW,
    {
        CurrentOption { row: START_ROW }
    }

    /// Returns the selected row.
    pub fn row(&self) -> (row: usize)
        ensures
            row == self.index(),
            row <= START_ROW,
    {
        proof {
            use_type_invariant(self);
        }
        self.row
    }

    /// Tells whether `row` is the selected row, which is drawn highlighted.
    pub fn is_selected(&self, row: usize) -> (selected: bool)
        ensures
            selected == (row == self.index()),
    {
        self.row == row
    }

    /// Takes the presses of one frame: moves the selection up, then down, as
    /// far as these keys went down, and lists the changes that the other keys
    /// ask of the selected row.
    pub fn update_menu_buttons(&mut self, pressed: MenuPresses) -> (step: MenuStep)
        ensures
            final(self).index() == row_after(old(self).index(), pressed),
            step.changes@ == changes_of(pressed),
            step.moves == (if pressed.up {
                1int
            } else {
                0int
            }) + (if pressed.down {
                1int
            } else {
                0int
            }),
    {
        proof {
            use_type_invariant(&*self);
        }
        let mut moves: u8 = 0;
        if pressed.up {
            moves = moves + 1;
            self.row = match self.row.checked_sub(1) {
                Some(above) => above,
                None => START_ROW,
            };
        }
        if pressed.down {
            moves = moves + 1;
            self.row = if self.row == START_ROW {
                0
            } else {
                self.row + 1
            };
        }
        let mut changes: Vec<OptionChange> = Vec::new();
        if pressed.right {
            changes.push(OptionChange::Increase);
        }
        if pressed.left {
            changes.push(OptionChange::Decrease);
        }
        if pressed.select {
            changes.push(OptionChange::Select);
        }
        assert(changes@ =~= changes_of(pressed));
        MenuStep { moves, changes }
    }
}

/// The value of every option, as a plain record.
pub struct OptionValues {
    /// 0 for high graphics, up to `GRAPHICS_MAX` for the lowest.
    pub graphics: int,
    /// 0 for shadows, 1 for none.
    pub shadows_on: int,
    /// 0 for the latest version of the game, 1 for the first.
    pub game_version: int,
}

impl OptionValues {
    /// Every option is within its range.
    pub open spec fn in_range(self) -> bool {
        &&& 0 <= self.graphics <= GRAPHICS_MAX
        &&& 0 <= self.shadows_on <= 1
        &&& 0 <= self.game_version <= 1
    }

    /// The settings that these values stand for.
    pub open spec fn settings(self) -> GameSettings {
        GameSettings {
            high_graphics: self.graphics == 0,
            shadows: self.shadows_on == 0,
            latest_version: self.game_version == 0,
        }
    }

    /// The values after `change` was applied on `row`. Increasing the
    /// graphics option steps through its values and starts over after the
    /// last, decreasing steps the other way round; either change flips the
    /// shadows and the version option. Nothing else changes a value.
    pub open spec fn apply(self, row: int, change: OptionChange) -> OptionValues {
        if change == OptionChange::Select {
            self
        } else if row == 0 {
            OptionValues {
                graphics: if change == OptionChange::Increase {
                    if self.graphics == GRAPHICS_MAX {
                        0
                    } else {
                        self.graphics + 1
                    }
                } else {
                    if self.graphics == 0 {
                        GRAPHICS_MAX as int
                    } else {
                        self.graphics - 1
                    }
                },
                ..self
            }
        } else if row == 1 {
            OptionValues { shadows_on: 1 - self.shadows_on, ..self }
        } else if row == 2 {
            OptionValues { game_version: 1 - self.game_version, ..self }
        } else {
            self
        }
    }

    /// What applying `change` on `row` amounts to: a change of value on the
    /// three option rows, the start of the game when the last row is
    /// selected, and nothing otherwise.
    pub open spec fn outcome(self, row: int, change: OptionChange) -> OptionOutcome {
        if change == OptionChange::Select {
            if row == START_ROW {
                OptionOutcome::StartGame(self.settings())
            } else {
                OptionOutcome::Ignored
            }
        } else if 0 <= row < START_ROW {
            OptionOutcome::Changed
        } else {
            OptionOutcome::Ignored
        }
    }

    /// The text shown for the option on `row`; the last row shows none.
    pub open spec fn label(self, row: int) -> Option<Seq<char>> {
        if row == 0 {
            Some(
                if self.graphics == 0 {
                    " High "@
                } else {
                    " Low  "@
                },
            )
        } else if row == 1 {
            Some(
                if self.shadows_on == 0 {
                    "  On  "@
                } else {
                    "  Off "@
                },
            )
        } else if row == 2 {
            Some(
                if self.game_version == 0 {
                    "Latest"@
                } else {
                    " Jam  "@
                },
            )
        } else {
            None
        }
    }
}

/// The options of the game, each within its range.
pub struct OptionState {
    graphics: usize,
    shadows_on: usize,
    game_version: usize,
}

impl View for OptionState {
    type V = OptionValues;

    closed spec fn view(&self) -> OptionValues {
        OptionValues {
            graphics: self.graphics as int,
            shadows_on: self.shadows_on as int,
            game_version: self.game_version as int,
        }
    }
}

impl Default for OptionState {
    fn default() -> (state: OptionState)
        ensures
            state@ == (OptionValues { graphics: 0, shadows_on: 0, game_version: 0 }),
    {
        OptionState { graphics: 0, shadows_on: 0, game_version: 0 }
    }
}

impl OptionState {
    #[verifier::type_invariant]
    spec fn in_range(&self) -> bool {
        self@.in_range()
    }

    /// The options as they are when the program starts: high graphics,
    /// shadows, and the latest version of the game.
    pub fn initialize() -> (state: OptionState)
        ensures
            state@ == (OptionValues { graphics: 0, shadows_on: 0, game_version: 0 }),
    {
        OptionState { graphics: 0, shadows_on: 0, game_version: 0 }
    }

    /// The graphics option: 0 for high graphics, up to `GRAPHICS_MAX`.
    pub fn graphics(&self) -> (value: usize)
        ensures
            value == self@.graphics,
            value <= GRAPHICS_MAX,
    {
        proof {
            use_type_invariant(self);
        }
        self.graphics
    }

    /// The shadows option: 0 for shadows, 1 for none.
    pub fn shadows_on(&self) -> (value: usize)
        ensures
            value == self@.shadows_on,
            value <= 1,
    {
        proof {
            use_type_invariant(self);
        }
        self.shadows_on
    }

    /// The version option: 0 for the latest version of the game, 1 for the
    /// first.
    pub fn game_version(&self) -> (value: usize)
        ensures
            value == self@.game_version,
            value <= 1,
    {
        proof {
            use_type_invariant(self);
        }
        self.game_version
    }

    /// The settings that a game started now would get.
    pub fn settings(&self) -> (settings: GameSettings)
        ensures
            settings == self@.settings(),
            self@.in_range(),
    {
        proof {
            use_type_invariant(self);
        }
        GameSettings {
            high_graphics: self.graphics == 0,
            shadows: self.shadows_on == 0,
            latest_version: self.game_version == 0,
        }
    }

    /// Applies one change to the option on `row` and says what came of it.
    pub fn handle_option_change(&mut self, row: usize, change: OptionChange) -> (outcome:
        OptionOutcome)
        ensures
            final(self)@ == old(self)@.apply(row as int, change),
            outcome == old(self)@.outcome(row as int, change),
            final(self)@.in_range(),
    {
        proof {
            use_type_invariant(&*self);
        }
        match row {
            0 => match change {
                OptionChange::Increase => {
                    self.graphics = if self.graphics == GRAPHICS_MAX {
                        0
                    } else {
                        self.graphics + 1
                    };
                    OptionOutcome::Changed
                },
                OptionChange::Decrease => {
                    self.graphics = if self.graphics == 0 {
                        GRAPHICS_MAX
                    } else {
                        self.graphics - 1
                    };
                    OptionOutcome::Changed
                },
                OptionChange::Select => OptionOutcome::Ignored,
            },
            1 => match change {
                OptionChange::Select => OptionOutcome::Ignored,
                _ => {
                    self.shadows_on = if self.shadows_on == 1 {
                        0
                    } else {
                        1
                    };
                    OptionOutcome::Changed
                },
            },
            2 => match change {
                OptionChange::Select => OptionOutcome::Ignored,
                _ => {
                    self.game_version = if self.game_version == 1 {
                        0
                    } else {
                        1
                    };
                    OptionOutcome::Changed
                },
            },
            3 => match change {
                OptionChange::Select => OptionOutcome::StartGame(self.settings()),
                _ => OptionOutcome::Ignored,
            },
            _ => OptionOutcome::Ignored,
        }
    }

    /// The text to show for the option on `row`; the last row shows none.
    pub fn display_current_option(&self, row: usize) -> (label: Option<&'static str>)
        ensures
            label is Some == self@.label(row as int) is Some,
            label matches Some(text) ==> Some(text@) == self@.label(row as int),
    {
        if row == 0 {
            Some(
                if self.graphics == 0 {
                    " High "
                } else {
                    " Low  "
                },
            )
        } else if row == 1 {
            Some(
                if self.shadows_on == 0 {
                    "  On  "
                } else {
                    "  Off "
                },
            )
        } else if row == 2 {
            Some(
                if self.game_version == 0 {
                    "Latest"
                } else {
                    " Jam  "
                },
            )
        } else {
            None
        }
    }
}

} // verus!
