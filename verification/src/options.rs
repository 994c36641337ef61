use vstd::prelude::*;
use vstd::string::StringExecFns;

use crate::error::ImagixError;
use crate::strutil::str_eq;

verus! {

/// The size class a thumbnail is requested in; each class maps to a fixed
/// pixel bound for the bounding box of the resize.
#[derive(Debug, Clone, Copy, PartialEq, Eq, Structural)]
pub enum SizeOption {
    Small,
    Medium,
    Large,
}

/// Whether one file or a whole folder of files is resized.
#[derive(Debug, Clone, Copy, PartialEq, Eq, Structural)]
pub enum Mode {
    Single,
    All,
}

impl SizeOption {
    /// The pixel bound each size class stands for.
    pub open spec fn pixels_spec(self) -> u32 {
        match self {
            SizeOption::Small => 200,
            SizeOption::Medium => 400,
            SizeOption::Large => 800,
        }
    }

    /// Maps the size class to its pixel bound: 200, 400 or 800.
    pub fn pixels(self) -> (r: u32)
        ensures
            r == self.pixels_spec(),
    {
        match self {
            SizeOption::Small => 200,
            SizeOption::Medium => 400,
            SizeOption::Large => 800,
        }
    }

    /// The size class a token denotes, if any; only the exact lowercase
    /// literals are recognized.
    pub open spec fn parsed(s: Seq<char>) -> Option<SizeOption> {
        if s == "small"@ {
            Some(SizeOption::Small)
        } else if s == "medium"@ {
            Some(SizeOption::Medium)
        } else if s == "large"@ {
            Some(SizeOption::Large)
        } else {
            None
        }
    }

    /// Parses a size token. Exactly `small`, `medium` or `large` succeed;
    /// any other token fails with the message `Wrong value for size`.
    pub fn from_str(s: &str) -> (r: Result<SizeOption, ImagixError>)
        ensures
            match r {
                Ok(o) => Self::parsed(s@) == Some(o),
                Err(e) => Self::parsed(s@) is None && (e matches ImagixError::UserInputError(m)
                    && m@ == "Wrong value for size"@),
            },
    {
        if str_eq(s, "small") {
            Ok(SizeOption::Small)
        } else if str_eq(s, "medium") {
            Ok(SizeOption::Medium)
        } else if str_eq(s, "large") {
            Ok(SizeOption::Large)
        } else {
            Err(ImagixError::UserInputError(String::from_str("Wrong value for size")))
        }
    }
}

impl Mode {
    /// The mode a token denotes, if any; only the exact lowercase literals
    /// are recognized.
    pub open spec fn parsed(s: Seq<char>) -> Option<Mode> {
        if s == "single"@ {
            Some(Mode::Single)
        } else if s == "all"@ {
            Some(Mode::All)
        } else {
            None
        }
    }

    /// Parses a mode token. Exactly `single` or `all` succeed; any other
    /// token fails with the message `Wrong value for mode`.
    pub fn from_str(s: &str) -> (r: Result<Mode, ImagixError>)
        ensures
            match r {
                Ok(o) => Self::parsed(s@) == Some(o),
                Err(e) => Self::parsed(s@) is None && (e matches ImagixError::UserInputError(m)
                    && m@ == "Wrong value for mode"@),
            },
    {
        if str_eq(s, "single") {
            Ok(Mode::Single)
        } else if str_eq(s, "all") {
            Ok(Mode::All)
        } else {
            Err(ImagixError::UserInputError(String::from_str("Wrong value for mode")))
        }
    }
}

} // verus!
