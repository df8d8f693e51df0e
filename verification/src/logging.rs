use vstd::prelude::*;

verus! {

/// Marks a message as coming from the debug messenger.
pub const DBG_UTILS: u64 = 1;

/// Marks a message as coming from the debug reporter.
pub const DBG_REPORT: u64 = 2;

/// How grave a message is, the gravest first.
#[derive(Clone, Copy, Debug, PartialEq, Eq, Structural)]
pub enum Level {
    Error,
    Warn,
    Info,
    Debug,
    Trace,
}

/// Up to which level messages are let through.
#[derive(Clone, Copy, Debug, PartialEq, Eq, Structural)]
pub enum LevelFilter {
    Off,
    Error,
    Warn,
    Info,
    Debug,
    Trace,
}

/// A colour of the terminal.
#[derive(Clone, Copy, Debug, PartialEq, Eq, Structural)]
pub enum Color {
    TrueColor { r: u8, g: u8, b: u8 },
    White,
    BrightRed,
    BrightYellow,
    BrightGreen,
    BrightCyan,
    BrightWhite,
}

/// How one line of the log is dressed.
#[derive(Clone, Copy, Debug, PartialEq, Eq, Structural)]
pub struct Style {
    /// Colour of the level's name.
    pub level_fg: Color,
    /// Background of the level's name, of the target and of the brackets.
    pub background: Color,
    /// Colour of the target.
    pub target_fg: Color,
    /// Colour of the message, where it is not the terminal's own.
    pub args_fg: Option<Color>,
    /// Colour of the brackets, the gap and the colon.
    pub flavor_fg: Color,
    /// How many spaces stand between the closing bracket and the target.
    pub gap: usize,
}

impl Level {
    /// The place of the level, from 1 for the gravest.
    pub open spec fn rank(self) -> int {
        match self {
            Level::Error => 1,
            Level::Warn => 2,
            Level::Info => 3,
            Level::Debug => 4,
            Level::Trace => 5,
        }
    }

    /// How many characters the level's name has.
    pub open spec fn name_len(self) -> int {
        match self {
            Level::Warn => 4,
            Level::Info => 4,
            _ => 5,
        }
    }
}

impl LevelFilter {
    /// The place of the last level let through, 0 where none is.
    pub open spec fn rank(self) -> int {
        match self {
            LevelFilter::Off => 0,
            LevelFilter::Error => 1,
            LevelFilter::Warn => 2,
            LevelFilter::Info => 3,
            LevelFilter::Debug => 4,
            LevelFilter::Trace => 5,
        }
    }
}

/// The dress of a line of `level`; `vulkan` where the device's own layers
/// speak, whose target is set one column closer.
pub open spec fn style_of(level: Level, vulkan: bool) -> Style {
    let gap: usize = ((if vulkan {
        1int
    } else {
        2int
    }) + 5 - level.name_len()) as usize;
    match level {
        Level::Error => Style {
            level_fg: Color::BrightWhite,
            background: Color::TrueColor { r: 165, g: 0, b: 0 },
            target_fg: Color::TrueColor { r: 255, g: 55, b: 95 },
            args_fg: None,
            flavor_fg: Color::BrightRed,
            gap,
        },
        Level::Warn => Style {
            level_fg: Color::BrightWhite,
            background: Color::TrueColor { r: 205, g: 125, b: 0 },
            target_fg: Color::TrueColor { r: 255, g: 255, b: 0 },
            args_fg: None,
            flavor_fg: Color::BrightYellow,
            gap,
        },
        Level::Info => Style {
            level_fg: Color::BrightWhite,
            background: Color::TrueColor { r: 0, g: 165, b: 0 },
            target_fg: Color::TrueColor { r: 35, g: 255, b: 75 },
            args_fg: None,
            flavor_fg: Color::BrightGreen,
            gap,
        },
        Level::Debug => Style {
            level_fg: Color::BrightWhite,
            background: Color::TrueColor { r: 0, g: 165, b: 165 },
            target_fg: Color::TrueColor { r: 95, g: 255, b: 235 },
            args_fg: Some(Color::BrightWhite),
            flavor_fg: Color::BrightCyan,
            gap,
        },
        Level::Trace => Style {
            level_fg: Color::BrightWhite,
            background: Color::TrueColor { r: 65, g: 65, b: 65 },
            target_fg: Color::BrightWhite,
            args_fg: None,
            flavor_fg: Color::TrueColor { r: 205, g: 205, b: 205 },
            gap,
        },
    }
}

/// The six characters that name the part of the device's layers a message
/// comes from.
pub open spec fn subsystem_text(sub: Option<u64>) -> Seq<char> {
    match sub {
        Some(part) => if part == DBG_UTILS {
            "UTILS "@
        } else if part == DBG_REPORT {
            "REPORT"@
        } else {
            "      "@
        },
        None => "      "@,
    }
}

/// Writes the log to the console, one dressed line for each message.
#[derive(Clone, Copy, Debug, PartialEq, Eq, Structural)]
pub struct ConsoleLogger;

impl ConsoleLogger {
    /// Whether a message of `level` is let through by `max`.
    pub fn enabled(&self, level: Level, max: LevelFilter) -> (out: bool)
        ensures
            out == (level.rank() <= max.rank()),
    {
        let level_rank: u8 = match level {
            Level::Error => 1,
            Level::Warn => 2,
            Level::Info => 3,
            Level::Debug => 4,
            Level::Trace => 5,
        };
        let max_rank: u8 = match max {
            LevelFilter::Off => 0,
            LevelFilter::Error => 1,
            LevelFilter::Warn => 2,
            LevelFilter::Info => 3,
            LevelFilter::Debug => 4,
            LevelFilter::Trace => 5,
        };
        level_rank <= max_rank
    }

    /// The dress of a line of `level`. The gap before the target makes up
    /// for the shorter names of levels, so that targets stand in one column.
    pub fn style(&self, level: Level, vulkan: bool) -> (out: Style)
        ensures
            out == style_of(level, vulkan),
            out.gap + level.name_len() == if vulkan {
                6int
            } else {
                7int
            },
    {
        let base: usize = if vulkan {
            1
        } else {
            2
        };
        match level {
            Level::Error => Style {
                level_fg: Color::BrightWhite,
                background: Color::TrueColor { r: 165, g: 0, b: 0 },
                target_fg: Color::TrueColor { r: 255, g: 55, b: 95 },
                args_fg: None,
                flavor_fg: Color::BrightRed,
                gap: base,
            },
            Level::Warn => Style {
                level_fg: Color::BrightWhite,
                background: Color::TrueColor { r: 205, g: 125, b: 0 },
                target_fg: Color::TrueColor { r: 255, g: 255, b: 0 },
                args_fg: None,
                flavor_fg: Color::BrightYellow,
                gap: base + 1,
            },
            Level::Info => Style {
                level_fg: Color::BrightWhite,
                background: Color::TrueColor { r: 0, g: 165, b: 0 },
                target_fg: Color::TrueColor { r: 35, g: 255, b: 75 },
                args_fg: None,
                flavor_fg: Color::BrightGreen,
                gap: base + 1,
            },
            Level::Debug => Style {
                level_fg: Color::BrightWhite,
                background: Color::TrueColor { r: 0, g: 165, b: 165 },
                target_fg: Color::TrueColor { r: 95, g: 255, b: 235 },
                args_fg: Some(Color::BrightWhite),
                flavor_fg: Color::BrightCyan,
                gap: base,
            },
            Level::Trace => Style {
                level_fg: Color::BrightWhite,
                background: Color::TrueColor { r: 65, g: 65, b: 65 },
                target_fg: Color::BrightWhite,
                args_fg: None,
                flavor_fg: Color::TrueColor { r: 205, g: 205, b: 205 },
                gap: base,
            },
        }
    }

    /// The six characters that name the part of the device's layers a
    /// message comes from: blank where it comes from none.
    pub fn subsystem(&self, sub: Option<u64>) -> (out: &'static str)
        ensures
            out@ == subsystem_text(sub),
    {
        match sub {
            Some(part) => if part == DBG_UTILS {
                "UTILS "
            } else if part == DBG_REPORT {
                "REPORT"
            } else {
                "      "
            },
            None => "      ",
        }
    }
}

} // verus!
