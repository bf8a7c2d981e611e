//! Custom report definitions from the custom reports configuration file.
use vstd::prelude::*;

use crate::report::CustomReportTypeValue;
use crate::text::{append_decimal, int_to_decimal, nat_to_decimal, text, text_with_number};

verus! {

broadcast use {vstd::seq_lib::group_to_multiset_ensures, vstd::multiset::group_multiset_axioms};

/// How clients order custom reports.
#[derive(Debug, Clone, Copy, PartialEq, Eq, Structural)]
pub enum CustomReportsOrderMode {
    OrderNumber,
}

/// Custom report ID: a custom report type number without the first custom
/// report type number.
#[derive(Debug, Clone, Copy, PartialEq, Eq, PartialOrd, Ord, Hash, Structural)]
pub struct CustomReportId(u8);

impl CustomReportId {
    /// 63
    pub const MAX_VALUE: u8 = 63;

    pub closed spec fn spec_value(self) -> u8 {
        self.0
    }

    /// The error text of a too large ID value.
    pub open spec fn spec_too_large_error(value: int) -> Seq<char> {
        "Custom report ID value "@ + int_to_decimal(value) + " is too large, max value: 63"@
    }

    /// The ID `value`, or an error when it is larger than 63.
    pub fn new(value: u8) -> (r: Result<Self, String>)
        ensures
            match r {
                Ok(id) => id.spec_value() == value && value <= 63,
                Err(e) => value > 63 && e@ == Self::spec_too_large_error(value as int),
            },
    {
        if value > Self::MAX_VALUE {
            let mut s = text_with_number("Custom report ID value ", value as i64);
            s.append(" is too large, max value: 63");
            return Err(s);
        }
        Ok(Self(value))
    }

    pub fn to_usize(&self) -> (r: usize)
        ensures
            r == self.spec_value(),
    {
        self.0 as usize
    }

    /// The custom report type number of the ID: the ID plus 64.
    pub fn to_report_type_number_value(&self) -> (r: Result<CustomReportTypeValue, String>)
        ensures
            self.spec_value() <= 63 ==> (r matches Ok(v) && v.spec_value() == self.spec_value() + 64),
            self.spec_value() > 63 ==> r is Err,
    {
        if self.0 > 63 {
            return Err(Self::new(self.0).unwrap_err());
        }
        CustomReportTypeValue::new(self.0 + 64)
    }

    /// The ID `value`, or an error when it is not in `[0, 63]`.
    pub fn try_from_i64(value: i64) -> (r: Result<Self, String>)
        ensures
            match r {
                Ok(id) => id.spec_value() == value && 0 <= value <= 63,
                Err(e) => !(0 <= value <= 63) && e@ == if 0 <= value <= 255 {
                    Self::spec_too_large_error(value as int)
                } else {
                    "out of range integral type conversion attempted"@
                },
            },
    {
        if value < 0 || value > 255 {
            return Err(text("out of range integral type conversion attempted"));
        }
        Self::new(value as u8)
    }

    pub fn into_i64(self) -> (r: i64)
        ensures
            r == self.spec_value(),
    {
        self.0 as i64
    }
}

impl TryFrom<i64> for CustomReportId {
    type Error = String;

    fn try_from(value: i64) -> (r: Result<Self, Self::Error>)
        ensures
            match r {
                Ok(id) => id.spec_value() == value && 0 <= value <= 63,
                Err(_) => !(0 <= value <= 63),
            },
    {
        Self::try_from_i64(value)
    }
}

impl vstd::std_specs::convert::TryFromSpecImpl<i64> for CustomReportId {
    open spec fn obeys_try_from_spec() -> bool {
        false
    }

    open spec fn try_from_spec(v: i64) -> Result<Self, String> {
        arbitrary()
    }
}

/// Hash of the custom reports file.
#[derive(Debug, Clone)]
pub struct CustomReportsFileHash {
    h: String,
}

impl CustomReportsFileHash {
    pub closed spec fn spec_hash(&self) -> Seq<char> {
        self.h@
    }

    pub fn new(h: String) -> (r: Self)
        ensures
            r.spec_hash() == h@,
    {
        Self { h }
    }

    pub fn hash(&self) -> (r: &str)
        ensures
            r@ == self.spec_hash(),
    {
        self.h.as_str()
    }
}

/// Content type of a custom report.
#[derive(Debug, Clone, Copy, PartialEq, Eq, Structural)]
pub enum CustomReportType {
    /// Empty content
    Empty,
}

/// One translated name of a custom report.
#[derive(Debug, Clone)]
pub struct CustomReportTranslation {
    /// Custom report name.
    pub key: String,
    /// Translated text.
    pub name: String,
}

/// Translations of one language.
#[derive(Debug, Clone)]
pub struct CustomReportLanguage {
    /// Language code.
    pub lang: String,
    pub values: Vec<CustomReportTranslation>,
}

/// One custom report definition.
#[derive(Debug, Clone)]
pub struct CustomReport {
    pub key: String,
    pub name: String,
    pub report_type: CustomReportType,
    /// Client should show the report type when making a new report.
    pub visible: bool,
    pub id: CustomReportId,
    /// Client should order custom reports with this number when
    /// [CustomReportsOrderMode::OrderNumber] is selected.
    pub order_number: u16,
    pub translations: Vec<CustomReportLanguage>,
}

/// The first translation key, in language and value order, that differs
/// from `key`.
pub open spec fn first_wrong_translation_key(key: Seq<char>, translations: Seq<CustomReportLanguage>) -> Option<Seq<char>>
    decreases translations.len(),
{
    if translations.len() == 0 {
        None
    } else {
        match first_wrong_key_in(key, translations[0].values@) {
            Some(k) => Some(k),
            None => first_wrong_translation_key(key, translations.drop_first()),
        }
    }
}

/// The first value key of `values` that differs from `key`.
pub open spec fn first_wrong_key_in(key: Seq<char>, values: Seq<CustomReportTranslation>) -> Option<Seq<char>>
    decreases values.len(),
{
    if values.len() == 0 {
        None
    } else if values[0].key@ != key {
        Some(values[0].key@)
    } else {
        first_wrong_key_in(key, values.drop_first())
    }
}

/// The error text for a translation key that no report defines.
pub open spec fn missing_key_error(key: Seq<char>) -> Seq<char> {
    "Missing custom report key definition for translation key "@ + key
}

fn strings_equal(a: &String, b: &String) -> (r: bool)
    ensures
        r == (a@ == b@),
{
    a.eq(b)
}

impl CustomReport {
    /// Every translation value must use the report's own key.
    pub fn validate(&self) -> (r: Result<(), String>)
        ensures
            match first_wrong_translation_key(self.key@, self.translations@) {
                Some(k) => r matches Err(e) && e@ == missing_key_error(k),
                None => r is Ok,
            },
    {
        let mut i: usize = 0;
        assert(self.translations@.skip(0) =~= self.translations@);
        while i < self.translations.len()
            invariant
                i <= self.translations@.len(),
                first_wrong_translation_key(self.key@, self.translations@)
                    == first_wrong_translation_key(self.key@, self.translations@.skip(i as int)),
            decreases self.translations@.len() - i,
        {
            let values = &self.translations[i].values;
            let mut j: usize = 0;
            assert(values@.skip(0) =~= values@);
            while j < values.len()
                invariant
                    j <= values@.len(),
                    i < self.translations@.len(),
                    *values == self.translations@[i as int].values,
                    first_wrong_translation_key(self.key@, self.translations@)
                        == first_wrong_translation_key(self.key@, self.translations@.skip(i as int)),
                    first_wrong_key_in(self.key@, values@) == first_wrong_key_in(self.key@, values@.skip(j as int)),
                decreases values@.len() - j,
            {
                assert(values@.skip(j as int).drop_first() =~= values@.skip(j + 1));
                if !strings_equal(&values[j].key, &self.key) {
                    let mut e = text("Missing custom report key definition for translation key ");
                    e.append(values[j].key.as_str());
                    proof {
                        let rest = self.translations@.skip(i as int);
                        assert(rest[0] == self.translations@[i as int]);
                        let vs = values@.skip(j as int);
                        assert(vs[0] == values@[j as int]);
                        assert(first_wrong_key_in(self.key@, vs) == Some(values@[j as int].key@));
                        assert(first_wrong_translation_key(self.key@, rest) == Some(values@[j as int].key@));
                        assert(e@ =~= missing_key_error(values@[j as int].key@));
                    }
                    return Err(e);
                }
                j = j + 1;
            }
            proof {
                let rest = self.translations@.skip(i as int);
                assert(rest[0] == self.translations@[i as int]);
                assert(values@.skip(j as int) =~= Seq::<CustomReportTranslation>::empty());
                assert(rest.drop_first() =~= self.translations@.skip(i + 1));
            }
            i = i + 1;
        }
        assert(self.translations@.skip(i as int) =~= Seq::<CustomReportLanguage>::empty());
        Ok(())
    }
}

/// Whether the key of report `i` is the key of an earlier report.
pub open spec fn key_used_before(reps: Seq<CustomReport>, i: int) -> bool {
    exists|k: int| 0 <= k < i && #[trigger] reps[k].key@ == reps[i].key@
}

/// Whether the ID of report `i` is the ID of an earlier report.
pub open spec fn id_used_before(reps: Seq<CustomReport>, i: int) -> bool {
    exists|k: int| 0 <= k < i && #[trigger] reps[k].id == reps[i].id
}

/// Whether the order number of report `i` is that of an earlier report.
pub open spec fn order_number_used_before(reps: Seq<CustomReport>, i: int) -> bool {
    exists|k: int| 0 <= k < i && #[trigger] reps[k].order_number == reps[i].order_number
}

/// The error of the first report, from report `i` on, whose key, ID or
/// order number an earlier report already has; the key is checked first,
/// then the ID, then the order number.
pub open spec fn first_duplicate_error(reps: Seq<CustomReport>, i: nat) -> Option<Seq<char>>
    decreases reps.len() - i,
{
    if i >= reps.len() {
        None
    } else if key_used_before(reps, i as int) {
        Some("Duplicate key "@ + reps[i as int].key@)
    } else if id_used_before(reps, i as int) {
        Some("Duplicate id "@ + nat_to_decimal(reps[i as int].id.spec_value() as nat))
    } else if order_number_used_before(reps, i as int) {
        Some("Duplicate order number "@ + nat_to_decimal(reps[i as int].order_number as nat))
    } else {
        first_duplicate_error(reps, i + 1)
    }
}

/// Whether some report has the ID `value`.
pub open spec fn id_is_used(reps: Seq<CustomReport>, value: int) -> bool {
    exists|k: int| 0 <= k < reps.len() && #[trigger] reps[k].id.spec_value() == value
}

/// The error text for an ID that no report uses.
pub open spec fn missing_id_error(value: nat, count: nat) -> Seq<char> {
    "ID "@ + nat_to_decimal(value) + " is missing from custom report ID values, all numbers between 0 and "@
        + nat_to_decimal((count - 1) as nat) + " should be used"@
}

/// The error of the first ID from `i` up to the report count that is not a
/// valid custom report ID or that no report uses.
pub open spec fn first_id_error(reps: Seq<CustomReport>, i: nat) -> Option<Seq<char>>
    decreases reps.len() - i,
{
    if i >= reps.len() {
        None
    } else if i > 255 {
        Some("out of range integral type conversion attempted"@)
    } else if i > 63 {
        Some(CustomReportId::spec_too_large_error(i as int))
    } else if !id_is_used(reps, i as int) {
        Some(missing_id_error(i, reps.len()))
    } else {
        first_id_error(reps, i + 1)
    }
}

/// The error of the first report from `i` on whose translations use a key
/// other than the report's own.
pub open spec fn first_report_error(reps: Seq<CustomReport>, i: nat) -> Option<Seq<char>>
    decreases reps.len() - i,
{
    if i >= reps.len() {
        None
    } else {
        match first_wrong_translation_key(reps[i as int].key@, reps[i as int].translations@) {
            Some(k) => Some(missing_key_error(k)),
            None => first_report_error(reps, i + 1),
        }
    }
}

/// The first error of the custom reports, checked in this order: unique
/// keys, IDs and order numbers; IDs from 0 up to the report count; the
/// translation keys of each report.
pub open spec fn custom_reports_error(reps: Seq<CustomReport>) -> Option<Seq<char>> {
    match first_duplicate_error(reps, 0) {
        Some(e) => Some(e),
        None => match first_id_error(reps, 0) {
            Some(e) => Some(e),
            None => first_report_error(reps, 0),
        },
    }
}

fn key_used_before_exec(reps: &Vec<CustomReport>, i: usize) -> (r: bool)
    requires
        i < reps@.len(),
    ensures
        r == key_used_before(reps@, i as int),
{
    let mut k: usize = 0;
    while k < i
        invariant
            k <= i < reps@.len(),
            forall|t: int| 0 <= t < k ==> reps@[t].key@ != reps@[i as int].key@,
        decreases i - k,
    {
        if strings_equal(&reps[k].key, &reps[i].key) {
            return true;
        }
        k = k + 1;
    }
    false
}

fn id_used_before_exec(reps: &Vec<CustomReport>, i: usize) -> (r: bool)
    requires
        i < reps@.len(),
    ensures
        r == id_used_before(reps@, i as int),
{
    let mut k: usize = 0;
    while k < i
        invariant
            k <= i < reps@.len(),
            forall|t: int| 0 <= t < k ==> reps@[t].id != reps@[i as int].id,
        decreases i - k,
    {
        if reps[k].id.0 == reps[i].id.0 {
            return true;
        }
        k = k + 1;
    }
    false
}

fn order_number_used_before_exec(reps: &Vec<CustomReport>, i: usize) -> (r: bool)
    requires
        i < reps@.len(),
    ensures
        r == order_number_used_before(reps@, i as int),
{
    let mut k: usize = 0;
    while k < i
        invariant
            k <= i < reps@.len(),
            forall|t: int| 0 <= t < k ==> reps@[t].order_number != reps@[i as int].order_number,
        decreases i - k,
    {
        if reps[k].order_number == reps[i].order_number {
            return true;
        }
        k = k + 1;
    }
    false
}

fn id_is_used_exec(reps: &Vec<CustomReport>, value: u8) -> (r: bool)
    ensures
        r == id_is_used(reps@, value as int),
{
    let mut k: usize = 0;
    while k < reps.len()
        invariant
            k <= reps@.len(),
            forall|t: int| 0 <= t < k ==> reps@[t].id.spec_value() != value,
        decreases reps@.len() - k,
    {
        if reps[k].id.0 == value {
            assert(reps@[k as int].id.spec_value() == value);
            return true;
        }
        k = k + 1;
    }
    false
}

/// The custom reports configuration file.
#[derive(Debug, Clone)]
pub struct CustomReportsConfig {
    report_order: CustomReportsOrderMode,
    report: Vec<CustomReport>,
}

impl CustomReportsConfig {
    pub closed spec fn spec_report_order(&self) -> CustomReportsOrderMode {
        self.report_order
    }

    pub closed spec fn spec_reports(&self) -> Seq<CustomReport> {
        self.report@
    }

    pub fn new(report_order: CustomReportsOrderMode, report: Vec<CustomReport>) -> (r: Self)
        ensures
            r.spec_report_order() == report_order,
            r.spec_reports() == report@,
    {
        Self { report_order, report }
    }

    /// Checks that keys, IDs and order numbers are unique, that the IDs
    /// are the numbers from 0 up to the report count and that translations
    /// use the keys of their reports. On success the reports are sorted by
    /// ID, so that report `i` has ID `i`; on failure nothing changes.
    pub fn validate_and_sort_by_id(&mut self) -> (r: Result<(), String>)
        ensures
            match custom_reports_error(old(self).spec_reports()) {
                Some(e) => r matches Err(x) && x@ == e && *final(self) == *old(self),
                None => {
                    &&& r is Ok
                    &&& final(self).spec_report_order() == old(self).spec_report_order()
                    &&& final(self).spec_reports().len() == old(self).spec_reports().len()
                    &&& forall|j: int| 0 <= j < final(self).spec_reports().len()
                        ==> (#[trigger] final(self).spec_reports()[j]).id.spec_value() == j
                            && old(self).spec_reports().contains(final(self).spec_reports()[j])
                    &&& final(self).spec_reports().to_multiset() == old(self).spec_reports().to_multiset()
                },
            },
    {
        let ghost reps = self.report@;
        let n = self.report.len();
        // Unique keys, IDs and order numbers.
        let mut i: usize = 0;
        while i < n
            invariant
                n == self.report@.len(),
                reps == self.report@,
                i <= n,
                first_duplicate_error(reps, 0) == first_duplicate_error(reps, i as nat),
                forall|t: int| 0 <= t < i ==> !id_used_before(reps, t),
            decreases n - i,
        {
            if key_used_before_exec(&self.report, i) {
                let mut e = text("Duplicate key ");
                e.append(self.report[i].key.as_str());
                assert(e@ =~= "Duplicate key "@ + reps[i as int].key@);
                return Err(e);
            }
            if id_used_before_exec(&self.report, i) {
                let mut e = text("Duplicate id ");
                append_decimal(&mut e, self.report[i].id.to_usize() as u64);
                return Err(e);
            }
            if order_number_used_before_exec(&self.report, i) {
                let mut e = text("Duplicate order number ");
                append_decimal(&mut e, self.report[i].order_number as u64);
                return Err(e);
            }
            i = i + 1;
        }
        // IDs from 0 up to the report count.
        let mut i: usize = 0;
        while i < n
            invariant
                n == self.report@.len(),
                reps == self.report@,
                i <= n,
                first_duplicate_error(reps, 0) is None,
                first_id_error(reps, 0) == first_id_error(reps, i as nat),
                forall|t: int| 0 <= t < i ==> id_is_used(reps, t),
            decreases n - i,
        {
            if i > 255 {
                return Err(text("out of range integral type conversion attempted"));
            }
            let id = match CustomReportId::new(i as u8) {
                Ok(id) => id,
                Err(e) => {
                    return Err(e);
                },
            };
            if !id_is_used_exec(&self.report, id.0) {
                let mut e = text("ID ");
                append_decimal(&mut e, i as u64);
                e.append(" is missing from custom report ID values, all numbers between 0 and ");
                append_decimal(&mut e, (n - 1) as u64);
                e.append(" should be used");
                assert(e@ =~= missing_id_error(i as nat, n as nat));
                return Err(e);
            }
            i = i + 1;
        }
        // Translation keys.
        let mut i: usize = 0;
        while i < n
            invariant
                n == self.report@.len(),
                reps == self.report@,
                i <= n,
                first_duplicate_error(reps, 0) is None,
                first_id_error(reps, 0) is None,
                first_report_error(reps, 0) == first_report_error(reps, i as nat),
            decreases n - i,
        {
            match self.report[i].validate() {
                Ok(()) => {},
                Err(e) => {
                    return Err(e);
                },
            }
            i = i + 1;
        }
        proof {
            lemma_no_duplicates(reps, 0);
            lemma_no_id_error(reps, 0);
            lemma_ids_distinct(reps);
        }
        // Sort by ID: the report with ID `j` goes to position `j`.
        let mut remaining: Vec<CustomReport> = Vec::new();
        std::mem::swap(&mut remaining, &mut self.report);
        let mut sorted: Vec<CustomReport> = Vec::new();
        proof {
            assert(remaining@ == reps);
            assert(sorted@.to_multiset().add(remaining@.to_multiset()) =~= reps.to_multiset());
        }
        let mut j: usize = 0;
        while j < n
            invariant
                n == reps.len(),
                j <= n,
                sorted@.len() == j,
                remaining@.len() == n - j,
                forall|t: int| 0 <= t < j ==> (#[trigger] sorted@[t]).id.spec_value() == t && reps.contains(sorted@[t]),
                forall|t: int| 0 <= t < remaining@.len() ==> reps.contains(#[trigger] remaining@[t]),
                forall|t: int| 0 <= t < remaining@.len() ==> (#[trigger] remaining@[t]).id.spec_value() >= j,
                forall|v: int| j <= v < n ==> id_is_used(remaining@, v),
                ids_distinct(remaining@),
                sorted@.to_multiset().add(remaining@.to_multiset()) == reps.to_multiset(),
            decreases n - j,
        {
            assert(id_is_used(remaining@, j as int));
            let mut k: usize = 0;
            while k < remaining.len() && remaining[k].id.0 as usize != j
                invariant
                    k <= remaining@.len(),
                    forall|t: int| 0 <= t < k ==> remaining@[t].id.spec_value() != j,
                decreases remaining@.len() - k,
            {
                k = k + 1;
            }
            if k == remaining.len() {
                assert(false);
            }
            let ghost before = remaining@;
            let item = remaining.swap_remove(k);
            proof {
                assert forall|t: int| 0 <= t < remaining@.len() implies reps.contains(#[trigger] remaining@[t]) by {
                    if t == k {
                        assert(remaining@[t] == before[before.len() - 1]);
                    } else {
                        assert(remaining@[t] == before[t]);
                    }
                }
                assert forall|t: int| 0 <= t < remaining@.len() implies (#[trigger] remaining@[t]).id.spec_value() >= j + 1 by {
                    let b = if t == k { before.len() - 1 } else { t };
                    assert(remaining@[t] == before[b]);
                    if before[b].id.spec_value() == j {
                        assert(before[b].id == before[k as int].id);
                        if b < k {
                            assert(before[b].id != before[k as int].id);
                        } else {
                            assert(before[k as int].id != before[b].id);
                        }
                    }
                }
                assert forall|a: int, c: int| 0 <= a < c < remaining@.len() implies #[trigger] remaining@[a].id
                    != #[trigger] remaining@[c].id by {
                    let ba = if a == k { before.len() - 1 } else { a };
                    let bc = if c == k { before.len() - 1 } else { c };
                    assert(remaining@[a] == before[ba]);
                    assert(remaining@[c] == before[bc]);
                    if ba < bc {
                        assert(before[ba].id != before[bc].id);
                    } else {
                        assert(before[bc].id != before[ba].id);
                    }
                }
                assert forall|v: int| j + 1 <= v < n implies id_is_used(remaining@, v) by {
                    assert(id_is_used(before, v));
                    let w = choose|w: int| 0 <= w < before.len() && #[trigger] before[w].id.spec_value() == v;
                    if w == before.len() - 1 {
                        if k < before.len() - 1 {
                            assert(remaining@[k as int] == before[w]);
                        }
                    } else {
                        assert(remaining@[w] == before[w]);
                    }
                }
            }
            proof {
                let last = before.last();
                vstd::seq_lib::to_multiset_update(before, k as int, last);
                assert(before.update(k as int, last) =~= remaining@.push(last));
                vstd::seq_lib::to_multiset_build(remaining@, last);
                assert(before.contains(item)) by {
                    assert(before[k as int] == item);
                }
                let grown = remaining@.push(last);
                assert(grown.to_multiset() == before.to_multiset().insert(last).remove(item));
                assert(grown.to_multiset() == remaining@.to_multiset().insert(last));
                assert forall|x: CustomReport| #[trigger] remaining@.to_multiset().count(x)
                    == before.to_multiset().remove(item).count(x) by {
                    assert(grown.to_multiset().count(x) == remaining@.to_multiset().insert(last).count(x));
                }
                assert(remaining@.to_multiset() =~= before.to_multiset().remove(item));
                vstd::seq_lib::to_multiset_build(sorted@, item);
            }
            let ghost sorted_before = sorted@;
            sorted.push(item);
            proof {
                assert(sorted@ == sorted_before.push(item));
                assert(sorted@.to_multiset().add(remaining@.to_multiset()) =~= reps.to_multiset());
            }
            j = j + 1;
        }
        proof {
            assert(remaining@ =~= Seq::<CustomReport>::empty());
            assert(remaining@.to_multiset() =~= vstd::multiset::Multiset::<CustomReport>::empty());
            assert(sorted@.to_multiset() =~= reps.to_multiset());
        }
        self.report = sorted;
        Ok(())
    }

    /// The report with ID `value`, once the reports are sorted by ID.
    pub fn index_with_id(&self, value: CustomReportId) -> (r: Option<&CustomReport>)
        ensures
            value.spec_value() < self.spec_reports().len() ==> r == Some(&self.spec_reports()[value.spec_value() as int]),
            value.spec_value() >= self.spec_reports().len() ==> r is None,
    {
        if value.to_usize() < self.report.len() {
            Some(&self.report[value.to_usize()])
        } else {
            None
        }
    }
}

/// The custom reports are valid: keys, IDs and order numbers are unique,
/// the IDs are exactly the numbers from 0 up to the report count (at most
/// 64 reports, the number of custom report IDs), and every translation of
/// a report uses the report's own key.
pub open spec fn custom_reports_valid(reps: Seq<CustomReport>) -> bool {
    &&& forall|a: int, b: int| 0 <= a < b < reps.len() ==> #[trigger] reps[a].key@ != #[trigger] reps[b].key@
    &&& ids_distinct(reps)
    &&& forall|a: int, b: int| 0 <= a < b < reps.len() ==> #[trigger] reps[a].order_number != #[trigger] reps[b].order_number
    &&& reps.len() <= 64
    &&& forall|v: int| 0 <= v < reps.len() ==> id_is_used(reps, v)
    &&& forall|i: int, l: int, t: int|
        0 <= i < reps.len() && 0 <= l < reps[i].translations@.len() && 0 <= t < reps[i].translations@[l].values@.len()
            ==> #[trigger] reps[i].translations@[l].values@[t].key@ == reps[i].key@
}

proof fn lemma_duplicate_error_none(reps: Seq<CustomReport>, i: nat)
    ensures
        first_duplicate_error(reps, i) is None <==> forall|t: int| i <= t < reps.len() ==> !key_used_before(reps, t)
            && !id_used_before(reps, t) && !order_number_used_before(reps, t),
    decreases reps.len() - i,
{
    if i < reps.len() {
        lemma_duplicate_error_none(reps, i + 1);
        if first_duplicate_error(reps, i) is None {
            assert forall|t: int| i <= t < reps.len() implies !key_used_before(reps, t) && !id_used_before(reps, t)
                && !order_number_used_before(reps, t) by {
                if t > i {
                    assert(i + 1 <= t);
                }
            }
        }
    }
}

proof fn lemma_id_error_none(reps: Seq<CustomReport>, i: nat)
    ensures
        first_id_error(reps, i) is None <==> ((reps.len() <= i || reps.len() <= 64) && forall|t: int|
            i <= t < reps.len() ==> #[trigger] id_is_used(reps, t)),
    decreases reps.len() - i,
{
    if i < reps.len() {
        lemma_id_error_none(reps, i + 1);
        if first_id_error(reps, i) is None {
            assert(i <= 63);
            assert(id_is_used(reps, i as int));
            assert forall|t: int| i <= t < reps.len() implies #[trigger] id_is_used(reps, t) by {
                if t > i {
                    assert(i + 1 <= t);
                }
            }
        }
    }
}

proof fn lemma_wrong_key_in_none(key: Seq<char>, values: Seq<CustomReportTranslation>)
    ensures
        first_wrong_key_in(key, values) is None <==> forall|t: int| 0 <= t < values.len() ==> #[trigger] values[t].key@ == key,
    decreases values.len(),
{
    if values.len() > 0 {
        lemma_wrong_key_in_none(key, values.drop_first());
        if first_wrong_key_in(key, values) is None {
            assert forall|t: int| 0 <= t < values.len() implies #[trigger] values[t].key@ == key by {
                if t > 0 {
                    assert(values[t] == values.drop_first()[t - 1]);
                }
            }
        } else {
            if values[0].key@ == key {
                assert forall|t: int| 0 <= t < values.drop_first().len() implies #[trigger] values.drop_first()[t].key@
                    == key || !(forall|u: int| 0 <= u < values.len() ==> #[trigger] values[u].key@ == key) by {
                    assert(values.drop_first()[t] == values[t + 1]);
                }
            }
        }
    }
}

proof fn lemma_wrong_translation_key_none(key: Seq<char>, translations: Seq<CustomReportLanguage>)
    ensures
        first_wrong_translation_key(key, translations) is None <==> forall|l: int, t: int|
            0 <= l < translations.len() && 0 <= t < translations[l].values@.len()
                ==> #[trigger] translations[l].values@[t].key@ == key,
    decreases translations.len(),
{
    if translations.len() > 0 {
        let rest = translations.drop_first();
        lemma_wrong_translation_key_none(key, rest);
        lemma_wrong_key_in_none(key, translations[0].values@);
        if first_wrong_translation_key(key, translations) is None {
            assert(first_wrong_key_in(key, translations[0].values@) is None);
            assert(first_wrong_translation_key(key, rest) is None);
            assert forall|l: int, t: int|
                0 <= l < translations.len() && 0 <= t < translations[l].values@.len() implies #[trigger] translations[l].values@[t].key@
                == key by {
                if l > 0 {
                    assert(translations[l] == rest[l - 1]);
                    assert(rest[l - 1].values@[t].key@ == key);
                } else {
                    assert(translations[0].values@[t].key@ == key);
                }
            }
        } else if first_wrong_key_in(key, translations[0].values@) is None {
            assert forall|l: int, t: int| 0 <= l < rest.len() && 0 <= t < rest[l].values@.len() implies #[trigger] rest[l].values@[t].key@
                == key || !(forall|l2: int, t2: int|
                0 <= l2 < translations.len() && 0 <= t2 < translations[l2].values@.len()
                    ==> #[trigger] translations[l2].values@[t2].key@ == key) by {
                assert(rest[l] == translations[l + 1]);
            }
        }
    }
}

proof fn lemma_report_error_none(reps: Seq<CustomReport>, i: nat)
    ensures
        first_report_error(reps, i) is None <==> forall|t: int| i <= t < reps.len()
            ==> (#[trigger] first_wrong_translation_key(reps[t].key@, reps[t].translations@)) is None,
    decreases reps.len() - i,
{
    if i < reps.len() {
        lemma_report_error_none(reps, i + 1);
        if first_report_error(reps, i) is None {
            assert forall|t: int| i <= t < reps.len() implies (#[trigger] first_wrong_translation_key(
                reps[t].key@,
                reps[t].translations@,
            )) is None by {
                if t > i {
                    assert(i + 1 <= t);
                }
            }
        }
    }
}

/// The custom reports pass the checks of
/// [CustomReportsConfig::validate_and_sort_by_id] exactly when they are
/// valid: unique keys, IDs and order numbers, IDs from 0 up to the report
/// count, and translations that use their report's key.
pub proof fn lemma_custom_reports_error_none_iff_valid(reps: Seq<CustomReport>)
    ensures
        custom_reports_error(reps) is None <==> custom_reports_valid(reps),
{
    lemma_duplicate_error_none(reps, 0);
    lemma_id_error_none(reps, 0);
    lemma_report_error_none(reps, 0);
    assert forall|i: int| 0 <= i < reps.len() implies (first_wrong_translation_key(reps[i].key@, reps[i].translations@)
        is None <==> forall|l: int, t: int|
        0 <= l < reps[i].translations@.len() && 0 <= t < reps[i].translations@[l].values@.len()
            ==> #[trigger] reps[i].translations@[l].values@[t].key@ == reps[i].key@) by {
        lemma_wrong_translation_key_none(reps[i].key@, reps[i].translations@);
    }
    if custom_reports_error(reps) is None {
        assert forall|a: int, b: int| 0 <= a < b < reps.len() implies #[trigger] reps[a].key@ != #[trigger] reps[b].key@ by {
            assert(!key_used_before(reps, b));
        }
        assert forall|a: int, b: int| 0 <= a < b < reps.len() implies #[trigger] reps[a].id != #[trigger] reps[b].id by {
            assert(!id_used_before(reps, b));
        }
        assert forall|a: int, b: int| 0 <= a < b < reps.len() implies #[trigger] reps[a].order_number
            != #[trigger] reps[b].order_number by {
            assert(!order_number_used_before(reps, b));
        }
        assert forall|i: int, l: int, t: int|
            0 <= i < reps.len() && 0 <= l < reps[i].translations@.len() && 0 <= t < reps[i].translations@[l].values@.len()
                implies #[trigger] reps[i].translations@[l].values@[t].key@ == reps[i].key@ by {
            assert(first_wrong_translation_key(reps[i].key@, reps[i].translations@) is None);
        }
    }
    if custom_reports_valid(reps) {
        assert forall|t: int| 0 <= t < reps.len() implies !key_used_before(reps, t) && !id_used_before(reps, t)
            && !order_number_used_before(reps, t) by {
            if key_used_before(reps, t) {
                let k = choose|k: int| 0 <= k < t && #[trigger] reps[k].key@ == reps[t].key@;
                assert(reps[k].key@ != reps[t].key@);
            }
            if id_used_before(reps, t) {
                let k = choose|k: int| 0 <= k < t && #[trigger] reps[k].id == reps[t].id;
                assert(reps[k].id != reps[t].id);
            }
            if order_number_used_before(reps, t) {
                let k = choose|k: int| 0 <= k < t && #[trigger] reps[k].order_number == reps[t].order_number;
                assert(reps[k].order_number != reps[t].order_number);
            }
        }
        assert forall|t: int| 0 <= t < reps.len() implies (#[trigger] first_wrong_translation_key(
            reps[t].key@,
            reps[t].translations@,
        )) is None by {
            assert forall|l: int, u: int|
                0 <= l < reps[t].translations@.len() && 0 <= u < reps[t].translations@[l].values@.len()
                    implies #[trigger] reps[t].translations@[l].values@[u].key@ == reps[t].key@ by {
            }
        }
    }
}

/// When no report repeats an earlier key, ID or order number, the IDs of
/// all reports are distinct.
proof fn lemma_no_duplicates(reps: Seq<CustomReport>, i: nat)
    requires
        first_duplicate_error(reps, i) is None,
    ensures
        forall|t: int| i <= t < reps.len() ==> !id_used_before(reps, t),
    decreases reps.len() - i,
{
    if i < reps.len() {
        lemma_no_duplicates(reps, i + 1);
    }
}

/// When no ID check fails, every ID from 0 up to the report count is used.
proof fn lemma_no_id_error(reps: Seq<CustomReport>, i: nat)
    requires
        first_id_error(reps, i) is None,
    ensures
        forall|t: int| i <= t < reps.len() ==> id_is_used(reps, t),
    decreases reps.len() - i,
{
    if i < reps.len() {
        lemma_no_id_error(reps, i + 1);
    }
}

/// Whether the reports of `reps` at different positions have different IDs.
pub open spec fn ids_distinct(reps: Seq<CustomReport>) -> bool {
    forall|a: int, b: int| 0 <= a < b < reps.len() ==> #[trigger] reps[a].id != #[trigger] reps[b].id
}

/// When no report repeats the ID of an earlier report, all IDs are distinct.
proof fn lemma_ids_distinct(reps: Seq<CustomReport>)
    requires
        forall|t: int| 0 <= t < reps.len() ==> !id_used_before(reps, t),
    ensures
        ids_distinct(reps),
{
    assert forall|a: int, b: int| 0 <= a < b < reps.len() implies #[trigger] reps[a].id != #[trigger] reps[b].id by {
        assert(!id_used_before(reps, b));
    }
}

} // verus!
