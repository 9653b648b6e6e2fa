//! The three priority levels of a task.

use ratatui::style::Color;
use vstd::prelude::*;

verus! {

/// `ratatui::style::Color`, carried as an opaque value.
#[verifier::external_type_specification]
#[verifier::external_body]
pub struct ExColor(ratatui::style::Color);

/// The colour that `Color::Rgb` builds from a red, a green and a blue channel.
pub uninterp spec fn rgb_color(red: u8, green: u8, blue: u8) -> Color;

/// The red, green and blue channels that `color` holds, where it is of the
/// variant `Color::Rgb`.
pub uninterp spec fn color_channels(color: Color) -> Option<(u8, u8, u8)>;

/// Builds `Color::Rgb(red, green, blue)`. Trusted: the result is the colour
/// that the variant's constructor gives for these three channels, and it
/// holds the three as they were given.
#[verifier::external_body]
fn rgb(red: u8, green: u8, blue: u8) -> (color: Color)
    ensures
        color == rgb_color(red, green, blue),
        color_channels(color) == Some((red, green, blue)),
{
    Color::Rgb(red, green, blue)
}

/// How urgent a task is.
#[derive(Clone, Copy, Debug, PartialEq, Eq, Structural)]
pub enum Priority {
    Low,
    Medium,
    High,
}

impl Priority {
    /// The level that follows this one in the cycle Low, Medium, High, Low.
    pub open spec fn successor(self) -> Priority {
        match self {
            Priority::Low => Priority::Medium,
            Priority::Medium => Priority::High,
            Priority::High => Priority::Low,
        }
    }

    /// The text under which this level is shown.
    pub open spec fn label(self) -> Seq<char> {
        match self {
            Priority::Low => "Low"@,
            Priority::Medium => "Medium"@,
            Priority::High => "High"@,
        }
    }

    /// The red, green and blue channels of the colour in which this level is shown.
    pub open spec fn channels(self) -> (u8, u8, u8) {
        match self {
            Priority::Low => (9u8, 245u8, 33u8),
            Priority::Medium => (245u8, 151u8, 9u8),
            Priority::High => (245u8, 9u8, 9u8),
        }
    }

    /// The colour in which this level is shown: green for Low, orange for
    /// Medium, red for High.
    pub fn get_color(&self) -> (color: Color)
        ensures
            color == rgb_color(self.channels().0, self.channels().1, self.channels().2),
            color_channels(color) == Some(self.channels()),
    {
        match self {
            Priority::Low => rgb(9, 245, 33),
            Priority::Medium => rgb(245, 151, 9),
            Priority::High => rgb(245, 9, 9),
        }
    }

    /// The cyclic successor of this level.
    pub fn next(&self) -> (following: Priority)
        ensures
            following == self.successor(),
    {
        match self {
            Priority::Low => Priority::Medium,
            Priority::Medium => Priority::High,
            Priority::High => Priority::Low,
        }
    }

    /// The display label of this level.
    pub fn as_str(&self) -> (text: &'static str)
        ensures
            text@ == self.label(),
    {
        match self {
            Priority::Low => "Low",
            Priority::Medium => "Medium",
            Priority::High => "High",
        }
    }
}

/// Three steps of the cycle lead back to the level they started from.
pub proof fn lemma_successor_has_period_three(level: Priority)
    ensures
        level.successor().successor().successor() == level,
{
}

/// No two levels are shown in the same colour: their channels differ.
pub proof fn lemma_channels_tell_levels_apart(one: Priority, other: Priority)
    requires
        one != other,
    ensures
        one.channels() != other.channels(),
{
}

} // verus!
