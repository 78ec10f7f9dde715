//! Status-line text: display names, label styles and the wall-clock
//! timestamp. The binary turns styles into terminal markup; the text
//! itself is composed and pinned down here.

use vstd::prelude::*;

use crate::decimal::{dec_rep, u64_to_string};
use crate::thermal::ThermalPressure;

verus! {

/// The color a status-line label takes from its level.
#[derive(Clone, Copy, Debug, PartialEq, Eq, Structural)]
pub enum LabelColor {
    Green,
    Yellow,
    Red,
    Magenta,
    Neutral,
}

/// How a status-line label is styled: a color and emphasis flags.
#[derive(Clone, Copy, Debug, PartialEq, Eq, Structural)]
pub struct LabelStyle {
    pub color: LabelColor,
    pub bold: bool,
    pub underline: bool,
    pub dim: bool,
}

/// The label style owed for each level: bold green for `Nominal`, bold
/// yellow for `Moderate`, bold red for `Heavy`, bold underlined red for
/// `Trapping`, bold underlined magenta for `Sleeping`, dimmed neutral for
/// `Unknown`.
pub open spec fn style_of(p: ThermalPressure) -> LabelStyle {
    match p {
        ThermalPressure::Nominal => LabelStyle {
            color: LabelColor::Green,
            bold: true,
            underline: false,
            dim: false,
        },
        ThermalPressure::Moderate => LabelStyle {
            color: LabelColor::Yellow,
            bold: true,
            underline: false,
            dim: false,
        },
        ThermalPressure::Heavy => LabelStyle {
            color: LabelColor::Red,
            bold: true,
            underline: false,
            dim: false,
        },
        ThermalPressure::Trapping => LabelStyle {
            color: LabelColor::Red,
            bold: true,
            underline: true,
            dim: false,
        },
        ThermalPressure::Sleeping => LabelStyle {
            color: LabelColor::Magenta,
            bold: true,
            underline: true,
            dim: false,
        },
        ThermalPressure::Unknown(_) => LabelStyle {
            color: LabelColor::Neutral,
            bold: false,
            underline: false,
            dim: true,
        },
    }
}

/// The display name owed for each level: the variant's name, with the raw
/// value in parentheses for `Unknown`.
pub open spec fn display_name_of(p: ThermalPressure) -> Seq<char> {
    match p {
        ThermalPressure::Nominal => "Nominal"@,
        ThermalPressure::Moderate => "Moderate"@,
        ThermalPressure::Heavy => "Heavy"@,
        ThermalPressure::Trapping => "Trapping"@,
        ThermalPressure::Sleeping => "Sleeping"@,
        ThermalPressure::Unknown(n) => "Unknown("@ + dec_rep(n as nat) + ")"@,
    }
}

/// Renders a level's display name.
pub fn display_name(p: ThermalPressure) -> (s: String)
    ensures
        s@ == display_name_of(p),
{
    match p {
        ThermalPressure::Nominal => String::from_str("Nominal"),
        ThermalPressure::Moderate => String::from_str("Moderate"),
        ThermalPressure::Heavy => String::from_str("Heavy"),
        ThermalPressure::Trapping => String::from_str("Trapping"),
        ThermalPressure::Sleeping => String::from_str("Sleeping"),
        ThermalPressure::Unknown(n) => {
            let mut s = String::from_str("Unknown(");
            let digits = u64_to_string(n);
            s.append(digits.as_str());
            s.append(")");
            s
        },
    }
}

/// A level's display name together with the style it is printed in.
pub struct StyledLabel {
    pub text: String,
    pub style: LabelStyle,
}

/// The display name and style for a level's status-line label.
pub fn colored_label(p: ThermalPressure) -> (l: StyledLabel)
    ensures
        l.text@ == display_name_of(p),
        l.style == style_of(p),
{
    let text = display_name(p);
    let style = match p {
        ThermalPressure::Nominal => LabelStyle {
            color: LabelColor::Green,
            bold: true,
            underline: false,
            dim: false,
        },
        ThermalPressure::Moderate => LabelStyle {
            color: LabelColor::Yellow,
            bold: true,
            underline: false,
            dim: false,
        },
        ThermalPressure::Heavy => LabelStyle {
            color: LabelColor::Red,
            bold: true,
            underline: false,
            dim: false,
        },
        ThermalPressure::Trapping => LabelStyle {
            color: LabelColor::Red,
            bold: true,
            underline: true,
            dim: false,
        },
        ThermalPressure::Sleeping => LabelStyle {
            color: LabelColor::Magenta,
            bold: true,
            underline: true,
            dim: false,
        },
        ThermalPressure::Unknown(_) => LabelStyle {
            color: LabelColor::Neutral,
            bold: false,
            underline: false,
            dim: true,
        },
    };
    StyledLabel { text, style }
}

/// Relies on chrono's `Local::now` formatted with `"%H:%M:%S"`: hour,
/// minute and second are each zero-padded to two digits and separated by
/// colons, so the result is always eight characters in the shape
/// `HH:MM:SS`.
#[verifier::external_body]
pub fn timestamp() -> (r: String)
    ensures
        r@.len() == 8,
        r@[2] == ':',
        r@[5] == ':',
{
    chrono::Local::now().format("%H:%M:%S").to_string()
}

} // verus!
