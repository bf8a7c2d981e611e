//! Admin notification subscriptions, their bitflag forms and the daily
//! time window in which admins get notifications.
use vstd::prelude::*;

use crate::backend::{TimeValue, UtcTimeValue};
use crate::search::SelectedWeekdays;

verus! {

/// Bot-only moderation notification types as bitflags:
/// MODERATE_INITIAL_MEDIA_CONTENT_BOT = 1 << 0, MODERATE_MEDIA_CONTENT_BOT = 1 << 1,
/// MODERATE_PROFILE_TEXTS_BOT = 1 << 2, MODERATE_PROFILE_NAMES_BOT = 1 << 3,
/// VERIFY_MEDIA_CONTENT_FACE_BOT = 1 << 4, VERIFY_ACCOUNT_BOT = 1 << 5,
/// PROCESS_REPORTS = 1 << 6.
#[derive(Debug, Clone, Copy, Default, PartialEq, Eq, Structural)]
pub struct AdminBotNotificationTypes {
    pub bits: u8,
}

/// Mask of the defined [AdminBotNotificationTypes] flags.
pub const ADMIN_BOT_NOTIFICATION_TYPES_ALL: u8 = 0x7f;

impl AdminBotNotificationTypes {
    pub const MODERATE_INITIAL_MEDIA_CONTENT_BOT: u8 = 1;
    pub const MODERATE_MEDIA_CONTENT_BOT: u8 = 2;
    pub const MODERATE_PROFILE_TEXTS_BOT: u8 = 4;
    pub const MODERATE_PROFILE_NAMES_BOT: u8 = 8;
    pub const VERIFY_MEDIA_CONTENT_FACE_BOT: u8 = 16;
    pub const VERIFY_ACCOUNT_BOT: u8 = 32;
    pub const PROCESS_REPORTS: u8 = 64;

    pub open spec fn spec_bits(&self) -> u8 {
        self.bits
    }

    /// Only defined flags are set.
    pub open spec fn wf(&self) -> bool {
        self.bits & !ADMIN_BOT_NOTIFICATION_TYPES_ALL == 0
    }

    /// Keeps the defined flags of `bits` and drops the others.
    pub fn from_bits_truncate(bits: u8) -> (r: Self)
        ensures
            r.spec_bits() == bits & ADMIN_BOT_NOTIFICATION_TYPES_ALL,
            r.wf(),
    {
        let r = Self { bits: bits & ADMIN_BOT_NOTIFICATION_TYPES_ALL };
        assert((bits & 0x7fu8) & !0x7fu8 == 0) by (bit_vector);
        r
    }

    pub fn bits(&self) -> (r: u8)
        ensures
            r == self.spec_bits(),
    {
        self.bits
    }

    /// The flags set in either value.
    pub fn merge(&self, other: &Self) -> (r: Self)
        ensures
            r.bits == self.bits | other.bits,
            self.wf() && other.wf() ==> r.wf(),
    {
        let a = self.bits;
        let b = other.bits;
        assert(a & !0x7fu8 == 0 && b & !0x7fu8 == 0 ==> (a | b) & !0x7fu8 == 0) by (bit_vector);
        Self { bits: a | b }
    }

    /// The bot notification flag of an admin notification type, or `Err`
    /// for a type that only humans handle.
    pub fn try_from_admin_notification_type(value: AdminNotificationTypes) -> (r: Result<Self, ()>)
        ensures
            match value.spec_bot_flag() {
                Some(bits) => r == Ok::<Self, ()>(Self { bits }),
                None => r == Err::<Self, ()>(()),
            },
    {
        match value {
            AdminNotificationTypes::ModerateInitialMediaContentBot =>
                Ok(Self { bits: Self::MODERATE_INITIAL_MEDIA_CONTENT_BOT }),
            AdminNotificationTypes::ModerateMediaContentBot =>
                Ok(Self { bits: Self::MODERATE_MEDIA_CONTENT_BOT }),
            AdminNotificationTypes::ModerateProfileTextsBot =>
                Ok(Self { bits: Self::MODERATE_PROFILE_TEXTS_BOT }),
            AdminNotificationTypes::ModerateProfileNamesBot =>
                Ok(Self { bits: Self::MODERATE_PROFILE_NAMES_BOT }),
            AdminNotificationTypes::ProcessReports => Ok(Self { bits: Self::PROCESS_REPORTS }),
            _ => Err(()),
        }
    }
}

impl TryFrom<AdminNotificationTypes> for AdminBotNotificationTypes {
    type Error = ();

    fn try_from(value: AdminNotificationTypes) -> (r: Result<Self, Self::Error>)
        ensures
            match value.spec_bot_flag() {
                Some(bits) => r == Ok::<Self, ()>(Self { bits }),
                None => r == Err::<Self, ()>(()),
            },
    {
        Self::try_from_admin_notification_type(value)
    }
}

impl vstd::std_specs::convert::TryFromSpecImpl<AdminNotificationTypes> for AdminBotNotificationTypes {
    open spec fn obeys_try_from_spec() -> bool {
        true
    }

    open spec fn try_from_spec(v: AdminNotificationTypes) -> Result<Self, ()> {
        match v.spec_bot_flag() {
            Some(bits) => Ok(Self { bits }),
            None => Err(()),
        }
    }
}

/// Admin notification types.
#[derive(Debug, Clone, Copy, PartialEq, Eq, Structural)]
pub enum AdminNotificationTypes {
    ModerateInitialMediaContentBot,
    ModerateInitialMediaContentHuman,
    ModerateMediaContentBot,
    ModerateMediaContentHuman,
    ModerateProfileTextsBot,
    ModerateProfileTextsHuman,
    ModerateProfileNamesBot,
    ModerateProfileNamesHuman,
    ProcessReports,
}

impl AdminNotificationTypes {
    /// The [AdminBotNotificationTypes] flag of the type, where bots handle it.
    pub open spec fn spec_bot_flag(self) -> Option<u8> {
        match self {
            Self::ModerateInitialMediaContentBot => Some(1u8),
            Self::ModerateMediaContentBot => Some(2u8),
            Self::ModerateProfileTextsBot => Some(4u8),
            Self::ModerateProfileNamesBot => Some(8u8),
            Self::ProcessReports => Some(64u8),
            _ => None,
        }
    }

    /// The bot flags are the documented bits: initial media content 1, media
    /// content 2, profile texts 4, profile names 8, reports 64; the human
    /// types have no bot flag.
    pub proof fn lemma_bot_flag_values(self)
        ensures
            self is ModerateInitialMediaContentBot ==> self.spec_bot_flag() == Some(1u8),
            self is ModerateMediaContentBot ==> self.spec_bot_flag() == Some(2u8),
            self is ModerateProfileTextsBot ==> self.spec_bot_flag() == Some(4u8),
            self is ModerateProfileNamesBot ==> self.spec_bot_flag() == Some(8u8),
            self is ProcessReports ==> self.spec_bot_flag() == Some(64u8),
            self is ModerateInitialMediaContentHuman ==> self.spec_bot_flag() is None,
            self is ModerateMediaContentHuman ==> self.spec_bot_flag() is None,
            self is ModerateProfileTextsHuman ==> self.spec_bot_flag() is None,
            self is ModerateProfileNamesHuman ==> self.spec_bot_flag() is None,
    {
    }
}

/// Timestamp value in seconds which is in the inclusive range
/// `[0, SECONDS_IN_DAY - 1]`.
#[derive(Debug, Clone, Copy, PartialEq, Eq, Structural)]
pub struct DayTimestamp {
    value: i32,
}

impl DayTimestamp {
    pub const MIN: i32 = 0;
    pub const MAX: i32 = 86399;

    /// Every timestamp lies in `[MIN, MAX]`.
    #[verifier::type_invariant]
    spec fn in_range(self) -> bool {
        0 <= self.value <= 86399
    }

    pub closed spec fn spec_value(self) -> i32 {
        self.value
    }

    /// The value is in range.
    pub open spec fn wf(self) -> bool {
        0 <= self.spec_value() <= 86399
    }

    /// The value clamped to `[MIN, MAX]`.
    pub open spec fn spec_clamp(value: int) -> int {
        if value < 0 {
            0
        } else if value > 86399 {
            86399
        } else {
            value
        }
    }

    pub fn new_clamped(value: i32) -> (r: Self)
        ensures
            r.spec_value() == Self::spec_clamp(value as int),
            r.wf(),
    {
        let v = if value < Self::MIN {
            Self::MIN
        } else if value > Self::MAX {
            Self::MAX
        } else {
            value
        };
        Self { value: v }
    }

    pub fn value(&self) -> (r: i32)
        ensures
            r == self.spec_value(),
            0 <= r <= 86399,
    {
        proof {
            use_type_invariant(self);
        }
        self.value
    }

    /// Start of the given hour of the day; hours past the day are clamped
    /// to the last second of the day.
    pub fn from_hours(hours: u8) -> (r: Self)
        ensures
            r.spec_value() == Self::spec_clamp(hours * 3600),
            r.wf(),
    {
        Self::new_clamped((hours as i32) * 60 * 60)
    }

    /// The hours and minutes of the timestamp.
    pub fn to_utc_time_value(&self) -> (r: UtcTimeValue)
        ensures
            r.0.hours == self.spec_value() / 3600,
            r.0.minutes == (self.spec_value() / 60) % 60,
    {
        proof {
            use_type_invariant(self);
        }
        let minutes = self.value / 60;
        let hours = minutes / 60;
        let minutes_without_hours = minutes - (hours * 60);
        let ghost v = self.value as int;
        assert(hours == v / 3600 && minutes_without_hours == (v / 60) % 60 && 0 <= hours < 24
            && 0 <= minutes_without_hours < 60) by (nonlinear_arith)
            requires
                0 <= v <= 86399,
                minutes == v / 60,
                hours == minutes / 60,
                minutes_without_hours == minutes - hours * 60,
        {
            assert(v / 3600 == (v / 60) / 60) by {
                vstd::arithmetic::div_mod::lemma_div_denominator(v, 60, 60);
            }
        }
        UtcTimeValue(TimeValue::new(hours as u8, minutes_without_hours as u8))
    }

    pub fn as_ref(&self) -> (r: &i32)
        ensures
            *r == self.spec_value(),
    {
        &self.value
    }

    /// The timestamp of `value` seconds, or an error when `value` is not
    /// in `[MIN, MAX]`.
    pub fn try_from_i32(value: i32) -> (r: Result<Self, String>)
        ensures
            match r {
                Ok(t) => t.spec_value() == value && t.wf(),
                Err(_) => !(0 <= value <= 86399),
            },
    {
        if value < Self::MIN || value > Self::MAX {
            Err(crate::text::text("DayTimestamp must be in range [0, 86399]"))
        } else {
            Ok(Self { value })
        }
    }

    pub fn into_i32(self) -> (r: i32)
        ensures
            r == self.spec_value(),
    {
        self.value
    }
}

impl Default for DayTimestamp {
    fn default() -> (r: Self)
        ensures
            r.spec_value() == 0,
    {
        Self { value: Self::MIN }
    }
}

impl TryFrom<i32> for DayTimestamp {
    type Error = String;

    fn try_from(value: i32) -> (r: Result<Self, Self::Error>)
        ensures
            match r {
                Ok(t) => t.spec_value() == value && t.wf(),
                Err(_) => !(0 <= value <= 86399),
            },
    {
        Self::try_from_i32(value)
    }
}

impl vstd::std_specs::convert::TryFromSpecImpl<i32> for DayTimestamp {
    open spec fn obeys_try_from_spec() -> bool {
        false
    }

    open spec fn try_from_spec(v: i32) -> Result<Self, String> {
        arbitrary()
    }
}

/// Days and daily time window in which an admin gets notifications.
/// Timezone for timestamps is UTC+0.
#[derive(Debug, Clone, Copy, PartialEq, Eq, Structural)]
pub struct AdminNotificationSettings {
    pub weekdays: SelectedWeekdays,
    pub daily_enabled_time_start_seconds: DayTimestamp,
    pub daily_enabled_time_end_seconds: DayTimestamp,
}

impl Default for AdminNotificationSettings {
    fn default() -> (r: Self)
        ensures
            r.weekdays.0 == 0x7f,
            r.daily_enabled_time_start_seconds.spec_value() == 0,
            r.daily_enabled_time_end_seconds.spec_value() == 86399,
    {
        Self {
            weekdays: SelectedWeekdays::all(),
            daily_enabled_time_start_seconds: DayTimestamp::new_clamped(DayTimestamp::MIN),
            daily_enabled_time_end_seconds: DayTimestamp::new_clamped(DayTimestamp::MAX),
        }
    }
}

/// Admin notification values or subscription info.
#[derive(Debug, Clone, Copy, Default, PartialEq, Eq, Structural)]
pub struct AdminNotification {
    pub moderate_initial_media_content_bot: bool,
    pub moderate_initial_media_content_human: bool,
    pub moderate_media_content_bot: bool,
    pub moderate_media_content_human: bool,
    pub moderate_profile_texts_bot: bool,
    pub moderate_profile_texts_human: bool,
    pub moderate_profile_names_bot: bool,
    pub moderate_profile_names_human: bool,
    pub process_reports: bool,
}

/// Field name of each [AdminNotification] field, in field order.
pub open spec fn admin_notification_field_name(i: int) -> Seq<char> {
    if i == 0 {
        "moderate_initial_media_content_bot"@
    } else if i == 1 {
        "moderate_initial_media_content_human"@
    } else if i == 2 {
        "moderate_media_content_bot"@
    } else if i == 3 {
        "moderate_media_content_human"@
    } else if i == 4 {
        "moderate_profile_texts_bot"@
    } else if i == 5 {
        "moderate_profile_texts_human"@
    } else if i == 6 {
        "moderate_profile_names_bot"@
    } else if i == 7 {
        "moderate_profile_names_human"@
    } else {
        "process_reports"@
    }
}

/// Whether one of the fields `0..k` is set.
pub open spec fn any_field_set_before(n: AdminNotification, k: nat) -> bool
    decreases k,
{
    if k == 0 {
        false
    } else {
        any_field_set_before(n, (k - 1) as nat) || n.field(k - 1)
    }
}

/// The names of the set fields among `0..k`, in field order, one per line
/// and without a final newline.
pub open spec fn field_names_before(n: AdminNotification, k: nat) -> Seq<char>
    decreases k,
{
    if k == 0 {
        Seq::empty()
    } else {
        let prev = field_names_before(n, (k - 1) as nat);
        if n.field(k - 1) {
            if any_field_set_before(n, (k - 1) as nat) {
                prev + seq!['\n'] + admin_notification_field_name(k - 1)
            } else {
                admin_notification_field_name(k - 1)
            }
        } else {
            prev
        }
    }
}

/// Appends `name` as a new line; the first line gets no newline before it.
fn append_line(s: &mut String, name: &str, first: bool)
    ensures
        final(s)@ == if first { old(s)@ + name@ } else { old(s)@ + seq!['\n'] + name@ },
{
    if !first {
        proof { reveal_strlit("\n"); }
        s.append("\n");
    }
    s.append(name);
}

impl AdminNotification {
    /// Field `i` in field order.
    pub open spec fn field(self, i: int) -> bool {
        if i == 0 {
            self.moderate_initial_media_content_bot
        } else if i == 1 {
            self.moderate_initial_media_content_human
        } else if i == 2 {
            self.moderate_media_content_bot
        } else if i == 3 {
            self.moderate_media_content_human
        } else if i == 4 {
            self.moderate_profile_texts_bot
        } else if i == 5 {
            self.moderate_profile_texts_human
        } else if i == 6 {
            self.moderate_profile_names_bot
        } else if i == 7 {
            self.moderate_profile_names_human
        } else if i == 8 {
            self.process_reports
        } else {
            false
        }
    }

    /// Position of the field that a notification type enables.
    pub open spec fn type_index(t: AdminNotificationTypes) -> int {
        match t {
            AdminNotificationTypes::ModerateInitialMediaContentBot => 0,
            AdminNotificationTypes::ModerateInitialMediaContentHuman => 1,
            AdminNotificationTypes::ModerateMediaContentBot => 2,
            AdminNotificationTypes::ModerateMediaContentHuman => 3,
            AdminNotificationTypes::ModerateProfileTextsBot => 4,
            AdminNotificationTypes::ModerateProfileTextsHuman => 5,
            AdminNotificationTypes::ModerateProfileNamesBot => 6,
            AdminNotificationTypes::ModerateProfileNamesHuman => 7,
            AdminNotificationTypes::ProcessReports => 8,
        }
    }

    /// Field `i` is the `i`th subscription, and its name is that
    /// subscription's field name.
    pub proof fn lemma_fields_and_names(n: AdminNotification)
        ensures
            n.field(0) == n.moderate_initial_media_content_bot && admin_notification_field_name(0) == "moderate_initial_media_content_bot"@,
            n.field(1) == n.moderate_initial_media_content_human && admin_notification_field_name(1) == "moderate_initial_media_content_human"@,
            n.field(2) == n.moderate_media_content_bot && admin_notification_field_name(2) == "moderate_media_content_bot"@,
            n.field(3) == n.moderate_media_content_human && admin_notification_field_name(3) == "moderate_media_content_human"@,
            n.field(4) == n.moderate_profile_texts_bot && admin_notification_field_name(4) == "moderate_profile_texts_bot"@,
            n.field(5) == n.moderate_profile_texts_human && admin_notification_field_name(5) == "moderate_profile_texts_human"@,
            n.field(6) == n.moderate_profile_names_bot && admin_notification_field_name(6) == "moderate_profile_names_bot"@,
            n.field(7) == n.moderate_profile_names_human && admin_notification_field_name(7) == "moderate_profile_names_human"@,
            n.field(8) == n.process_reports && admin_notification_field_name(8) == "process_reports"@,
    {
    }

    /// A notification type names the subscription of the same name: the
    /// field that [AdminNotification::enable] sets for it is that field.
    pub proof fn lemma_type_names_field(n: AdminNotification, t: AdminNotificationTypes)
        ensures
            t is ModerateInitialMediaContentBot ==> n.field(Self::type_index(t)) == n.moderate_initial_media_content_bot,
            t is ModerateInitialMediaContentHuman ==> n.field(Self::type_index(t)) == n.moderate_initial_media_content_human,
            t is ModerateMediaContentBot ==> n.field(Self::type_index(t)) == n.moderate_media_content_bot,
            t is ModerateMediaContentHuman ==> n.field(Self::type_index(t)) == n.moderate_media_content_human,
            t is ModerateProfileTextsBot ==> n.field(Self::type_index(t)) == n.moderate_profile_texts_bot,
            t is ModerateProfileTextsHuman ==> n.field(Self::type_index(t)) == n.moderate_profile_texts_human,
            t is ModerateProfileNamesBot ==> n.field(Self::type_index(t)) == n.moderate_profile_names_bot,
            t is ModerateProfileNamesHuman ==> n.field(Self::type_index(t)) == n.moderate_profile_names_human,
            t is ProcessReports ==> n.field(Self::type_index(t)) == n.process_reports,
    {
    }

    /// Sets the field of `event` and keeps the others.
    pub fn enable(&mut self, event: AdminNotificationTypes)
        ensures
            forall|i: int| 0 <= i < 9 ==> #[trigger] final(self).field(i) == if i == Self::type_index(event) {
                true
            } else {
                old(self).field(i)
            },
    {
        match event {
            AdminNotificationTypes::ModerateInitialMediaContentBot => {
                self.moderate_initial_media_content_bot = true
            },
            AdminNotificationTypes::ModerateInitialMediaContentHuman => {
                self.moderate_initial_media_content_human = true
            },
            AdminNotificationTypes::ModerateMediaContentBot => { self.moderate_media_content_bot = true },
            AdminNotificationTypes::ModerateMediaContentHuman => {
                self.moderate_media_content_human = true
            },
            AdminNotificationTypes::ModerateProfileTextsBot => { self.moderate_profile_texts_bot = true },
            AdminNotificationTypes::ModerateProfileTextsHuman => {
                self.moderate_profile_texts_human = true
            },
            AdminNotificationTypes::ModerateProfileNamesBot => { self.moderate_profile_names_bot = true },
            AdminNotificationTypes::ModerateProfileNamesHuman => {
                self.moderate_profile_names_human = true
            },
            AdminNotificationTypes::ProcessReports => self.process_reports = true,
        }
    }

    /// A field is set in the result when it is set in either value.
    pub fn merge(&self, other: &Self) -> (r: Self)
        ensures
            forall|i: int| 0 <= i < 9 ==> #[trigger] r.field(i) == (self.field(i) || other.field(i)),
    {
        Self {
            moderate_initial_media_content_bot: self.moderate_initial_media_content_bot
                || other.moderate_initial_media_content_bot,
            moderate_initial_media_content_human: self.moderate_initial_media_content_human
                || other.moderate_initial_media_content_human,
            moderate_media_content_bot: self.moderate_media_content_bot || other.moderate_media_content_bot,
            moderate_media_content_human: self.moderate_media_content_human
                || other.moderate_media_content_human,
            moderate_profile_texts_bot: self.moderate_profile_texts_bot || other.moderate_profile_texts_bot,
            moderate_profile_texts_human: self.moderate_profile_texts_human
                || other.moderate_profile_texts_human,
            moderate_profile_names_bot: self.moderate_profile_names_bot || other.moderate_profile_names_bot,
            moderate_profile_names_human: self.moderate_profile_names_human
                || other.moderate_profile_names_human,
            process_reports: self.process_reports || other.process_reports,
        }
    }

    /// A field is set in the result when it is set in both values.
    pub fn union(&self, other: &Self) -> (r: Self)
        ensures
            forall|i: int| 0 <= i < 9 ==> #[trigger] r.field(i) == (self.field(i) && other.field(i)),
    {
        Self {
            moderate_initial_media_content_bot: self.moderate_initial_media_content_bot
                && other.moderate_initial_media_content_bot,
            moderate_initial_media_content_human: self.moderate_initial_media_content_human
                && other.moderate_initial_media_content_human,
            moderate_media_content_bot: self.moderate_media_content_bot && other.moderate_media_content_bot,
            moderate_media_content_human: self.moderate_media_content_human
                && other.moderate_media_content_human,
            moderate_profile_texts_bot: self.moderate_profile_texts_bot && other.moderate_profile_texts_bot,
            moderate_profile_texts_human: self.moderate_profile_texts_human
                && other.moderate_profile_texts_human,
            moderate_profile_names_bot: self.moderate_profile_names_bot && other.moderate_profile_names_bot,
            moderate_profile_names_human: self.moderate_profile_names_human
                && other.moderate_profile_names_human,
            process_reports: self.process_reports && other.process_reports,
        }
    }

    /// The names of the set fields in field order, one per line, without
    /// a final newline.
    pub fn field_names_of_true_values(&self) -> (r: String)
        ensures
            r@ == field_names_before(*self, 9),
    {
        let mut result = String::new();
        let mut any = false;
        assert(result@ =~= field_names_before(*self, 0));
        assert(!any_field_set_before(*self, 0));
        if self.moderate_initial_media_content_bot {
            append_line(&mut result, "moderate_initial_media_content_bot", !any);
            any = true;
        }
        assert(result@ =~= field_names_before(*self, 1));
        assert(any == any_field_set_before(*self, 1));
        if self.moderate_initial_media_content_human {
            append_line(&mut result, "moderate_initial_media_content_human", !any);
            any = true;
        }
        assert(result@ =~= field_names_before(*self, 2));
        assert(any == any_field_set_before(*self, 2));
        if self.moderate_media_content_bot {
            append_line(&mut result, "moderate_media_content_bot", !any);
            any = true;
        }
        assert(result@ =~= field_names_before(*self, 3));
        assert(any == any_field_set_before(*self, 3));
        if self.moderate_media_content_human {
            append_line(&mut result, "moderate_media_content_human", !any);
            any = true;
        }
        assert(result@ =~= field_names_before(*self, 4));
        assert(any == any_field_set_before(*self, 4));
        if self.moderate_profile_texts_bot {
            append_line(&mut result, "moderate_profile_texts_bot", !any);
            any = true;
        }
        assert(result@ =~= field_names_before(*self, 5));
        assert(any == any_field_set_before(*self, 5));
        if self.moderate_profile_texts_human {
            append_line(&mut result, "moderate_profile_texts_human", !any);
            any = true;
        }
        assert(result@ =~= field_names_before(*self, 6));
        assert(any == any_field_set_before(*self, 6));
        if self.moderate_profile_names_bot {
            append_line(&mut result, "moderate_profile_names_bot", !any);
            any = true;
        }
        assert(result@ =~= field_names_before(*self, 7));
        assert(any == any_field_set_before(*self, 7));
        if self.moderate_profile_names_human {
            append_line(&mut result, "moderate_profile_names_human", !any);
            any = true;
        }
        assert(result@ =~= field_names_before(*self, 8));
        assert(any == any_field_set_before(*self, 8));
        if self.process_reports {
            append_line(&mut result, "process_reports", !any);
        }
        result
    }
}

/// Number of the bit of field `i` of [AdminNotification].
pub open spec fn admin_notification_bit(i: int) -> i64 {
    if 0 <= i < 9 { (1i64 << (i as i64)) } else { 0 }
}

/// The bits of the set fields of `n`.
pub open spec fn admin_notification_bits(n: AdminNotification) -> i64 {
    (if n.moderate_initial_media_content_bot { 1i64 } else { 0i64 })
        | (if n.moderate_initial_media_content_human { 2i64 } else { 0i64 })
        | (if n.moderate_media_content_bot { 4i64 } else { 0i64 })
        | (if n.moderate_media_content_human { 8i64 } else { 0i64 })
        | (if n.moderate_profile_texts_bot { 16i64 } else { 0i64 })
        | (if n.moderate_profile_texts_human { 32i64 } else { 0i64 })
        | (if n.moderate_profile_names_bot { 64i64 } else { 0i64 })
        | (if n.moderate_profile_names_human { 128i64 } else { 0i64 })
        | (if n.process_reports { 256i64 } else { 0i64 })
}

/// The notification whose fields are the bits `0..9` of `bits`.
pub open spec fn admin_notification_of_bits(bits: i64) -> AdminNotification {
    AdminNotification {
        moderate_initial_media_content_bot: bits & 1 != 0,
        moderate_initial_media_content_human: bits & 2 != 0,
        moderate_media_content_bot: bits & 4 != 0,
        moderate_media_content_human: bits & 8 != 0,
        moderate_profile_texts_bot: bits & 16 != 0,
        moderate_profile_texts_human: bits & 32 != 0,
        moderate_profile_names_bot: bits & 64 != 0,
        moderate_profile_names_human: bits & 128 != 0,
        process_reports: bits & 256 != 0,
    }
}

/// [AdminNotification] as bitflags, one bit per field in field order.
#[derive(Debug, Clone, Copy, Default, PartialEq, Eq, Structural)]
pub struct AdminNotificationBitflags {
    bits: i64,
}

impl AdminNotificationBitflags {
    pub const MODERATE_INITIAL_MEDIA_CONTENT_BOT: i64 = 1;
    pub const MODERATE_INITIAL_MEDIA_CONTENT_HUMAN: i64 = 2;
    pub const MODERATE_MEDIA_CONTENT_BOT: i64 = 4;
    pub const MODERATE_MEDIA_CONTENT_HUMAN: i64 = 8;
    pub const MODERATE_PROFILE_TEXTS_BOT: i64 = 16;
    pub const MODERATE_PROFILE_TEXTS_HUMAN: i64 = 32;
    pub const MODERATE_PROFILE_NAMES_BOT: i64 = 64;
    pub const MODERATE_PROFILE_NAMES_HUMAN: i64 = 128;
    pub const PROCESS_REPORTS: i64 = 256;

    pub closed spec fn spec_bits(self) -> i64 {
        self.bits
    }

    /// Bitflags with the same bits are the same value.
    pub proof fn lemma_bits_injective(a: Self, b: Self)
        ensures
            a.spec_bits() == b.spec_bits() <==> a == b,
    {
    }

    /// Keeps all of `bits`, defined flags or not.
    pub fn from_bits_truncate(bits: i64) -> (r: Self)
        ensures
            r.spec_bits() == bits,
    {
        Self { bits }
    }

    pub fn bits(self) -> (r: i64)
        ensures
            r == self.spec_bits(),
    {
        self.bits
    }

    /// The notification whose fields are the defined flags.
    pub fn into_admin_notification(self) -> (r: AdminNotification)
        ensures
            r == admin_notification_of_bits(self.spec_bits()),
    {
        AdminNotification {
            moderate_initial_media_content_bot: self.bits & Self::MODERATE_INITIAL_MEDIA_CONTENT_BOT != 0,
            moderate_initial_media_content_human: self.bits & Self::MODERATE_INITIAL_MEDIA_CONTENT_HUMAN != 0,
            moderate_media_content_bot: self.bits & Self::MODERATE_MEDIA_CONTENT_BOT != 0,
            moderate_media_content_human: self.bits & Self::MODERATE_MEDIA_CONTENT_HUMAN != 0,
            moderate_profile_texts_bot: self.bits & Self::MODERATE_PROFILE_TEXTS_BOT != 0,
            moderate_profile_texts_human: self.bits & Self::MODERATE_PROFILE_TEXTS_HUMAN != 0,
            moderate_profile_names_bot: self.bits & Self::MODERATE_PROFILE_NAMES_BOT != 0,
            moderate_profile_names_human: self.bits & Self::MODERATE_PROFILE_NAMES_HUMAN != 0,
            process_reports: self.bits & Self::PROCESS_REPORTS != 0,
        }
    }

    /// The bitflags of the set fields of `value`.
    pub fn from_admin_notification(value: AdminNotification) -> (r: Self)
        ensures
            r.spec_bits() == admin_notification_bits(value),
    {
        let bits: i64 = (if value.moderate_initial_media_content_bot { Self::MODERATE_INITIAL_MEDIA_CONTENT_BOT } else { 0 })
            | (if value.moderate_initial_media_content_human { Self::MODERATE_INITIAL_MEDIA_CONTENT_HUMAN } else { 0 })
            | (if value.moderate_media_content_bot { Self::MODERATE_MEDIA_CONTENT_BOT } else { 0 })
            | (if value.moderate_media_content_human { Self::MODERATE_MEDIA_CONTENT_HUMAN } else { 0 })
            | (if value.moderate_profile_texts_bot { Self::MODERATE_PROFILE_TEXTS_BOT } else { 0 })
            | (if value.moderate_profile_texts_human { Self::MODERATE_PROFILE_TEXTS_HUMAN } else { 0 })
            | (if value.moderate_profile_names_bot { Self::MODERATE_PROFILE_NAMES_BOT } else { 0 })
            | (if value.moderate_profile_names_human { Self::MODERATE_PROFILE_NAMES_HUMAN } else { 0 })
            | (if value.process_reports { Self::PROCESS_REPORTS } else { 0 });
        Self { bits }
    }
}

impl From<AdminNotification> for AdminNotificationBitflags {
    fn from(value: AdminNotification) -> (r: Self)
        ensures
            r.spec_bits() == admin_notification_bits(value),
    {
        Self::from_admin_notification(value)
    }
}

impl vstd::std_specs::convert::FromSpecImpl<AdminNotification> for AdminNotificationBitflags {
    open spec fn obeys_from_spec() -> bool {
        true
    }

    closed spec fn from_spec(v: AdminNotification) -> Self {
        Self { bits: admin_notification_bits(v) }
    }
}

impl From<AdminNotificationBitflags> for AdminNotification {
    fn from(value: AdminNotificationBitflags) -> (r: Self)
        ensures
            r == admin_notification_of_bits(value.spec_bits()),
    {
        value.into_admin_notification()
    }
}

impl vstd::std_specs::convert::FromSpecImpl<AdminNotificationBitflags> for AdminNotification {
    open spec fn obeys_from_spec() -> bool {
        true
    }

    open spec fn from_spec(v: AdminNotificationBitflags) -> Self {
        admin_notification_of_bits(v.spec_bits())
    }
}

/// Each subscription has its documented flag, bit `i` for field `i`:
/// initial media content by bot 1, by human 2; media content by bot 4, by
/// human 8; profile texts by bot 16, by human 32; profile names by bot 64,
/// by human 128; reports 256. No other bit is set.
pub proof fn lemma_admin_notification_flag_values(n: AdminNotification)
    ensures
        (admin_notification_bits(n) & 1 != 0) == n.moderate_initial_media_content_bot,
        (admin_notification_bits(n) & 2 != 0) == n.moderate_initial_media_content_human,
        (admin_notification_bits(n) & 4 != 0) == n.moderate_media_content_bot,
        (admin_notification_bits(n) & 8 != 0) == n.moderate_media_content_human,
        (admin_notification_bits(n) & 16 != 0) == n.moderate_profile_texts_bot,
        (admin_notification_bits(n) & 32 != 0) == n.moderate_profile_texts_human,
        (admin_notification_bits(n) & 64 != 0) == n.moderate_profile_names_bot,
        (admin_notification_bits(n) & 128 != 0) == n.moderate_profile_names_human,
        (admin_notification_bits(n) & 256 != 0) == n.process_reports,
        admin_notification_bits(n) & !0x1ffi64 == 0,
{
    let (a, b, c, d, e, f, g, h, i) = (n.moderate_initial_media_content_bot, n.moderate_initial_media_content_human,
        n.moderate_media_content_bot, n.moderate_media_content_human, n.moderate_profile_texts_bot,
        n.moderate_profile_texts_human, n.moderate_profile_names_bot, n.moderate_profile_names_human,
        n.process_reports);
    let x = admin_notification_bits(n);
    assert(x == ((if a { 1i64 } else { 0i64 }) | (if b { 2i64 } else { 0i64 }) | (if c { 4i64 } else { 0i64 }) | (if d { 8i64 } else { 0i64 }) | (if e { 16i64 } else { 0i64 }) | (if f { 32i64 } else { 0i64 }) | (if g { 64i64 } else { 0i64 }) | (if h { 128i64 } else { 0i64 }) | (if i { 256i64 } else { 0i64 })));
    assert(x == ((if a { 1i64 } else { 0i64 }) | (if b { 2i64 } else { 0i64 }) | (if c { 4i64 } else { 0i64 }) | (if d { 8i64 } else { 0i64 }) | (if e { 16i64 } else { 0i64 }) | (if f { 32i64 } else { 0i64 }) | (if g { 64i64 } else { 0i64 }) | (if h { 128i64 } else { 0i64 }) | (if i { 256i64 } else { 0i64 })) ==> ((x & 1 != 0) == a && (x & 2 != 0) == b && (x & 4 != 0) == c && (x & 8 != 0) == d && (x & 16 != 0) == e && (x & 32 != 0) == f && (x & 64 != 0) == g && (x & 128 != 0) == h && (x & 256 != 0) == i && x & !0x1ffi64 == 0)) by (bit_vector);
}

/// Reading stored bitflags sets each subscription from its documented
/// flag, as [lemma_admin_notification_flag_values] lists them.
pub proof fn lemma_admin_notification_read_flags(bits: i64)
    ensures
        admin_notification_of_bits(bits).moderate_initial_media_content_bot == (bits & 1 != 0),
        admin_notification_of_bits(bits).moderate_initial_media_content_human == (bits & 2 != 0),
        admin_notification_of_bits(bits).moderate_media_content_bot == (bits & 4 != 0),
        admin_notification_of_bits(bits).moderate_media_content_human == (bits & 8 != 0),
        admin_notification_of_bits(bits).moderate_profile_texts_bot == (bits & 16 != 0),
        admin_notification_of_bits(bits).moderate_profile_texts_human == (bits & 32 != 0),
        admin_notification_of_bits(bits).moderate_profile_names_bot == (bits & 64 != 0),
        admin_notification_of_bits(bits).moderate_profile_names_human == (bits & 128 != 0),
        admin_notification_of_bits(bits).process_reports == (bits & 256 != 0),
{
}

/// Converting a notification to bitflags and back gives the same
/// notification.
pub proof fn lemma_admin_notification_bits_roundtrip(n: AdminNotification)
    ensures
        admin_notification_of_bits(admin_notification_bits(n)) == n,
{
    let (a, b, c, d, e, f, g, h, i) = (n.moderate_initial_media_content_bot, n.moderate_initial_media_content_human,
        n.moderate_media_content_bot, n.moderate_media_content_human, n.moderate_profile_texts_bot,
        n.moderate_profile_texts_human, n.moderate_profile_names_bot, n.moderate_profile_names_human,
        n.process_reports);
    let x = admin_notification_bits(n);
    assert(x == ((if a { 1i64 } else { 0i64 }) | (if b { 2i64 } else { 0i64 }) | (if c { 4i64 } else { 0i64 })
        | (if d { 8i64 } else { 0i64 }) | (if e { 16i64 } else { 0i64 }) | (if f { 32i64 } else { 0i64 })
        | (if g { 64i64 } else { 0i64 }) | (if h { 128i64 } else { 0i64 }) | (if i { 256i64 } else { 0i64 })));
    assert(x == ((if a { 1i64 } else { 0i64 }) | (if b { 2i64 } else { 0i64 }) | (if c { 4i64 } else { 0i64 })
        | (if d { 8i64 } else { 0i64 }) | (if e { 16i64 } else { 0i64 }) | (if f { 32i64 } else { 0i64 })
        | (if g { 64i64 } else { 0i64 }) | (if h { 128i64 } else { 0i64 }) | (if i { 256i64 } else { 0i64 }))
        ==> ((x & 1 != 0) == a && (x & 2 != 0) == b && (x & 4 != 0) == c && (x & 8 != 0) == d
        && (x & 16 != 0) == e && (x & 32 != 0) == f && (x & 64 != 0) == g && (x & 128 != 0) == h
        && (x & 256 != 0) == i)) by (bit_vector);
}

/// Converting bitflags to a notification and back keeps exactly the
/// defined flags: the bits `0..9`.
pub proof fn lemma_admin_notification_bitflags_roundtrip(bits: i64)
    ensures
        admin_notification_bits(admin_notification_of_bits(bits)) == bits & 0x1ff,
{
    let n = admin_notification_of_bits(bits);
    assert(((if bits & 1 != 0 { 1i64 } else { 0i64 }) | (if bits & 2 != 0 { 2i64 } else { 0i64 })
        | (if bits & 4 != 0 { 4i64 } else { 0i64 }) | (if bits & 8 != 0 { 8i64 } else { 0i64 })
        | (if bits & 16 != 0 { 16i64 } else { 0i64 }) | (if bits & 32 != 0 { 32i64 } else { 0i64 })
        | (if bits & 64 != 0 { 64i64 } else { 0i64 }) | (if bits & 128 != 0 { 128i64 } else { 0i64 })
        | (if bits & 256 != 0 { 256i64 } else { 0i64 })) == bits & 0x1ff) by (bit_vector);
}

} // verus!
