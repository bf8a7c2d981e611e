//! Weekday selections and automatic profile search notifications.
use vstd::prelude::*;

use crate::push_notifications::{NotificationIdViewed, NotificationStatus};

verus! {

/// Selected weekdays as bitflags: MONDAY 0x1, TUESDAY 0x2, WEDNESDAY 0x4,
/// THURSDAY 0x8, FRIDAY 0x10, SATURDAY 0x20, SUNDAY 0x40.
#[derive(Debug, Clone, Copy, Default, PartialEq, Eq, Structural)]
pub struct SelectedWeekdays(pub i16);

impl SelectedWeekdays {
    /// Every weekday.
    pub fn all() -> (r: Self)
        ensures
            r.0 == 0x7f,
    {
        Self(WeekdayFlags::all().bits())
    }

    pub fn as_ref(&self) -> (r: &i16)
        ensures
            *r == self.0,
    {
        &self.0
    }
}

/// Day of the week.
#[derive(Debug, Clone, Copy, PartialEq, Eq, Structural)]
pub enum Weekday {
    Mon,
    Tue,
    Wed,
    Thu,
    Fri,
    Sat,
    Sun,
}

/// Weekday bitflags: MONDAY 0x1 up to SUNDAY 0x40.
#[derive(Debug, Clone, Copy, Default, PartialEq, Eq, Structural)]
pub struct WeekdayFlags {
    bits: i16,
}

impl WeekdayFlags {
    pub const MONDAY: i16 = 0x1;
    pub const TUESDAY: i16 = 0x2;
    pub const WEDNESDAY: i16 = 0x4;
    pub const THURSDAY: i16 = 0x8;
    pub const FRIDAY: i16 = 0x10;
    pub const SATURDAY: i16 = 0x20;
    pub const SUNDAY: i16 = 0x40;

    pub closed spec fn spec_bits(self) -> i16 {
        self.bits
    }

    /// The flag of `day`: bit 0 for Monday up to bit 6 for Sunday.
    pub open spec fn spec_day_flag(day: Weekday) -> i16 {
        match day {
            Weekday::Mon => 0x1,
            Weekday::Tue => 0x2,
            Weekday::Wed => 0x4,
            Weekday::Thu => 0x8,
            Weekday::Fri => 0x10,
            Weekday::Sat => 0x20,
            Weekday::Sun => 0x40,
        }
    }

    /// Each weekday has its documented flag: Monday 0x1, Tuesday 0x2,
    /// Wednesday 0x4, Thursday 0x8, Friday 0x10, Saturday 0x20, Sunday 0x40.
    pub proof fn lemma_day_flag_values(day: Weekday)
        ensures
            day is Mon ==> Self::spec_day_flag(day) == 0x1,
            day is Tue ==> Self::spec_day_flag(day) == 0x2,
            day is Wed ==> Self::spec_day_flag(day) == 0x4,
            day is Thu ==> Self::spec_day_flag(day) == 0x8,
            day is Fri ==> Self::spec_day_flag(day) == 0x10,
            day is Sat ==> Self::spec_day_flag(day) == 0x20,
            day is Sun ==> Self::spec_day_flag(day) == 0x40,
    {
    }

    /// Every weekday.
    pub fn all() -> (r: Self)
        ensures
            r.spec_bits() == 0x7f,
    {
        Self { bits: 0x7f }
    }

    /// Keeps the defined flags of `bits`.
    pub fn from_bits_truncate(bits: i16) -> (r: Self)
        ensures
            r.spec_bits() == bits & 0x7f,
    {
        Self { bits: bits & 0x7f }
    }

    pub fn bits(self) -> (r: i16)
        ensures
            r == self.spec_bits(),
    {
        self.bits
    }

    /// The flags of the selected days.
    pub fn from_selected_weekdays(value: SelectedWeekdays) -> (r: Self)
        ensures
            r.spec_bits() == value.0 & 0x7f,
    {
        Self::from_bits_truncate(value.0)
    }

    /// The flag of one day.
    pub fn from_weekday(day: Weekday) -> (r: Self)
        ensures
            r.spec_bits() == Self::spec_day_flag(day),
    {
        let bits = match day {
            Weekday::Mon => Self::MONDAY,
            Weekday::Tue => Self::TUESDAY,
            Weekday::Wed => Self::WEDNESDAY,
            Weekday::Thu => Self::THURSDAY,
            Weekday::Fri => Self::FRIDAY,
            Weekday::Sat => Self::SATURDAY,
            Weekday::Sun => Self::SUNDAY,
        };
        Self { bits }
    }

    /// Whether every flag of `other` is set.
    pub fn contains(&self, other: Self) -> (r: bool)
        ensures
            r == (self.spec_bits() & other.spec_bits() == other.spec_bits()),
    {
        self.bits & other.bits == other.bits
    }

    /// The selection of the flagged days.
    pub fn into_selected_weekdays(self) -> (r: SelectedWeekdays)
        ensures
            r.0 == self.spec_bits(),
    {
        SelectedWeekdays(self.bits)
    }
}

/// Notification of a completed automatic profile search.
#[derive(Debug, Clone, Copy, Default, PartialEq, Eq, Structural)]
pub struct AutomaticProfileSearchCompletedNotification {
    pub profiles_found: NotificationStatus,
    pub profile_count: i64,
    /// If true, the client should not show the notification.
    pub hidden: bool,
}

impl AutomaticProfileSearchCompletedNotification {
    /// Whether the client has handled the latest notification.
    pub fn notifications_viewed(&self) -> (r: bool)
        ensures
            r == (self.profiles_found.id.id == self.profiles_found.viewed.id),
    {
        self.profiles_found.notification_viewed()
    }
}

/// The automatic profile search notification that the client has handled.
#[derive(Debug, Clone, Copy, Default, PartialEq, Eq, Structural)]
pub struct AutomaticProfileSearchCompletedNotificationViewed {
    pub profiles_found: NotificationIdViewed,
}

} // verus!
