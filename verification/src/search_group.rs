//! Search groups (own gender and searched genders), the search age range
//! and the last seen time filter of profile search.
use vstd::prelude::*;

use crate::backend::UnixTime;
use crate::profile::{LastSeenTime, ProfileAge};
use crate::text::text;

verus! {

/// My gender and what gender I'm searching for. Fields read "I'm x and
/// I'm searching for y".
#[derive(Debug, Clone, Copy, Default, PartialEq, Eq, Structural)]
pub struct SearchGroups {
    pub man_for_woman: bool,
    pub man_for_man: bool,
    pub man_for_non_binary: bool,
    pub woman_for_man: bool,
    pub woman_for_woman: bool,
    pub woman_for_non_binary: bool,
    pub non_binary_for_man: bool,
    pub non_binary_for_woman: bool,
    pub non_binary_for_non_binary: bool,
}

/// Search groups of one gender.
#[derive(Debug, Clone, Copy, PartialEq, Eq, Structural)]
pub enum ValidatedSearchGroups {
    ManFor { woman: bool, man: bool, non_binary: bool },
    WomanFor { man: bool, woman: bool, non_binary: bool },
    NonBinaryFor { man: bool, woman: bool, non_binary: bool },
}

impl SearchGroups {
    pub open spec fn is_man(self) -> bool {
        self.man_for_woman || self.man_for_man || self.man_for_non_binary
    }

    pub open spec fn is_woman(self) -> bool {
        self.woman_for_man || self.woman_for_woman || self.woman_for_non_binary
    }

    pub open spec fn is_non_binary(self) -> bool {
        self.non_binary_for_man || self.non_binary_for_woman || self.non_binary_for_non_binary
    }

    /// The groups of a man, where some man group is set.
    pub fn to_validated_man(self) -> (r: Option<ValidatedSearchGroups>)
        ensures
            self.is_man() ==> r == Some(ValidatedSearchGroups::ManFor {
                woman: self.man_for_woman,
                man: self.man_for_man,
                non_binary: self.man_for_non_binary,
            }),
            !self.is_man() ==> r is None,
    {
        if self.man_for_woman || self.man_for_man || self.man_for_non_binary {
            Some(ValidatedSearchGroups::ManFor {
                woman: self.man_for_woman,
                man: self.man_for_man,
                non_binary: self.man_for_non_binary,
            })
        } else {
            None
        }
    }

    /// The groups of a woman, where some woman group is set.
    pub fn to_validated_woman(self) -> (r: Option<ValidatedSearchGroups>)
        ensures
            self.is_woman() ==> r == Some(ValidatedSearchGroups::WomanFor {
                man: self.woman_for_man,
                woman: self.woman_for_woman,
                non_binary: self.woman_for_non_binary,
            }),
            !self.is_woman() ==> r is None,
    {
        if self.woman_for_man || self.woman_for_woman || self.woman_for_non_binary {
            Some(ValidatedSearchGroups::WomanFor {
                man: self.woman_for_man,
                woman: self.woman_for_woman,
                non_binary: self.woman_for_non_binary,
            })
        } else {
            None
        }
    }

    /// The groups of a non-binary person, where some such group is set.
    pub fn to_validated_non_binary(self) -> (r: Option<ValidatedSearchGroups>)
        ensures
            self.is_non_binary() ==> r == Some(ValidatedSearchGroups::NonBinaryFor {
                man: self.non_binary_for_man,
                woman: self.non_binary_for_woman,
                non_binary: self.non_binary_for_non_binary,
            }),
            !self.is_non_binary() ==> r is None,
    {
        if self.non_binary_for_man || self.non_binary_for_woman || self.non_binary_for_non_binary {
            Some(ValidatedSearchGroups::NonBinaryFor {
                man: self.non_binary_for_man,
                woman: self.non_binary_for_woman,
                non_binary: self.non_binary_for_non_binary,
            })
        } else {
            None
        }
    }
}

impl ValidatedSearchGroups {
    /// The groups of exactly one gender; an error when no gender or more
    /// than one is set.
    pub fn try_from_search_groups(value: SearchGroups) -> (r: Result<Self, &'static str>)
        ensures
            match r {
                Ok(v) => (value.is_man() && !value.is_woman() && !value.is_non_binary() && v == (Self::ManFor {
                    woman: value.man_for_woman,
                    man: value.man_for_man,
                    non_binary: value.man_for_non_binary,
                })) || (!value.is_man() && value.is_woman() && !value.is_non_binary() && v == (Self::WomanFor {
                    man: value.woman_for_man,
                    woman: value.woman_for_woman,
                    non_binary: value.woman_for_non_binary,
                })) || (!value.is_man() && !value.is_woman() && value.is_non_binary() && v == (Self::NonBinaryFor {
                    man: value.non_binary_for_man,
                    woman: value.non_binary_for_woman,
                    non_binary: value.non_binary_for_non_binary,
                })),
                Err(e) => if !value.is_man() && !value.is_woman() && !value.is_non_binary() {
                    e@ == "Gender not set"@
                } else {
                    e@ == "Unambiguous gender"@ && ((value.is_man() && value.is_woman()) || (value.is_man()
                        && value.is_non_binary()) || (value.is_woman() && value.is_non_binary()))
                },
            },
    {
        match (value.to_validated_man(), value.to_validated_woman(), value.to_validated_non_binary()) {
            (Some(v), None, None) => Ok(v),
            (None, Some(v), None) => Ok(v),
            (None, None, Some(v)) => Ok(v),
            (None, None, None) => Err("Gender not set"),
            _ => Err("Unambiguous gender"),
        }
    }
}

/// The bit of each search group in field order: MAN_FOR_WOMAN 0x1,
/// MAN_FOR_MAN 0x2, MAN_FOR_NON_BINARY 0x4, WOMAN_FOR_MAN 0x8,
/// WOMAN_FOR_WOMAN 0x10, WOMAN_FOR_NON_BINARY 0x20, NON_BINARY_FOR_MAN 0x40,
/// NON_BINARY_FOR_WOMAN 0x80, NON_BINARY_FOR_NON_BINARY 0x100.
pub open spec fn search_group_bits(g: SearchGroups) -> u16 {
    (if g.man_for_woman { 0x1u16 } else { 0u16 }) | (if g.man_for_man { 0x2u16 } else { 0u16 })
        | (if g.man_for_non_binary { 0x4u16 } else { 0u16 }) | (if g.woman_for_man { 0x8u16 } else { 0u16 })
        | (if g.woman_for_woman { 0x10u16 } else { 0u16 }) | (if g.woman_for_non_binary { 0x20u16 } else { 0u16 })
        | (if g.non_binary_for_man { 0x40u16 } else { 0u16 }) | (if g.non_binary_for_woman { 0x80u16 } else { 0u16 })
        | (if g.non_binary_for_non_binary { 0x100u16 } else { 0u16 })
}

/// The search groups whose bits are set in `bits`.
pub open spec fn search_groups_of_bits(bits: u16) -> SearchGroups {
    SearchGroups {
        man_for_woman: bits & 0x1 != 0,
        man_for_man: bits & 0x2 != 0,
        man_for_non_binary: bits & 0x4 != 0,
        woman_for_man: bits & 0x8 != 0,
        woman_for_woman: bits & 0x10 != 0,
        woman_for_non_binary: bits & 0x20 != 0,
        non_binary_for_man: bits & 0x40 != 0,
        non_binary_for_woman: bits & 0x80 != 0,
        non_binary_for_non_binary: bits & 0x100 != 0,
    }
}

/// The groups that someone in the groups `bits` is searched by: "x for y"
/// becomes "y for x".
pub open spec fn mirrored_search_group_bits(bits: u16) -> u16 {
    (if bits & 0x1 != 0 { 0x8u16 } else { 0u16 }) | (if bits & 0x2 != 0 { 0x2u16 } else { 0u16 })
        | (if bits & 0x4 != 0 { 0x40u16 } else { 0u16 }) | (if bits & 0x8 != 0 { 0x1u16 } else { 0u16 })
        | (if bits & 0x10 != 0 { 0x10u16 } else { 0u16 }) | (if bits & 0x20 != 0 { 0x80u16 } else { 0u16 })
        | (if bits & 0x40 != 0 { 0x4u16 } else { 0u16 }) | (if bits & 0x80 != 0 { 0x20u16 } else { 0u16 })
        | (if bits & 0x100 != 0 { 0x100u16 } else { 0u16 })
}

/// [SearchGroups] as bitflags, as they are stored in the database.
#[derive(Debug, Clone, Copy, Default, PartialEq, Eq, Structural)]
pub struct SearchGroupFlags {
    bits: u16,
}

impl SearchGroupFlags {
    pub const MAN_FOR_WOMAN: u16 = 0x1;
    pub const MAN_FOR_MAN: u16 = 0x2;
    pub const MAN_FOR_NON_BINARY: u16 = 0x4;
    pub const WOMAN_FOR_MAN: u16 = 0x8;
    pub const WOMAN_FOR_WOMAN: u16 = 0x10;
    pub const WOMAN_FOR_NON_BINARY: u16 = 0x20;
    pub const NON_BINARY_FOR_MAN: u16 = 0x40;
    pub const NON_BINARY_FOR_WOMAN: u16 = 0x80;
    pub const NON_BINARY_FOR_NON_BINARY: u16 = 0x100;

    pub closed spec fn spec_bits(self) -> u16 {
        self.bits
    }

    /// Only defined flags are set.
    pub open spec fn wf(self) -> bool {
        self.spec_bits() & !0x1ffu16 == 0
    }

    pub fn bits(self) -> (r: u16)
        ensures
            r == self.spec_bits(),
    {
        self.bits
    }

    /// The filter that finds the profiles that search for these groups.
    pub fn to_filter(&self) -> (r: SearchGroupFlagsFilter)
        ensures
            r.spec_filter() == mirrored_search_group_bits(self.spec_bits()),
    {
        SearchGroupFlagsFilter::new(*self)
    }

    /// The groups whose flags are set.
    pub fn to_search_groups(self) -> (r: SearchGroups)
        ensures
            r == search_groups_of_bits(self.spec_bits()),
    {
        let b = self.bits;
        SearchGroups {
            man_for_woman: b & Self::MAN_FOR_WOMAN != 0,
            man_for_man: b & Self::MAN_FOR_MAN != 0,
            man_for_non_binary: b & Self::MAN_FOR_NON_BINARY != 0,
            woman_for_man: b & Self::WOMAN_FOR_MAN != 0,
            woman_for_woman: b & Self::WOMAN_FOR_WOMAN != 0,
            woman_for_non_binary: b & Self::WOMAN_FOR_NON_BINARY != 0,
            non_binary_for_man: b & Self::NON_BINARY_FOR_MAN != 0,
            non_binary_for_woman: b & Self::NON_BINARY_FOR_WOMAN != 0,
            non_binary_for_non_binary: b & Self::NON_BINARY_FOR_NON_BINARY != 0,
        }
    }

    pub fn is_man(self) -> (r: bool)
        ensures
            r == search_groups_of_bits(self.spec_bits()).is_man(),
    {
        self.to_search_groups().to_validated_man().is_some()
    }

    pub fn is_woman(self) -> (r: bool)
        ensures
            r == search_groups_of_bits(self.spec_bits()).is_woman(),
    {
        self.to_search_groups().to_validated_woman().is_some()
    }

    pub fn is_non_binary(self) -> (r: bool)
        ensures
            r == search_groups_of_bits(self.spec_bits()).is_non_binary(),
    {
        self.to_search_groups().to_validated_non_binary().is_some()
    }

    /// The flags of `value`; an error when it is not a `u16` or has an
    /// unknown flag.
    pub fn try_from_i64(value: i64) -> (r: Result<Self, String>)
        ensures
            match r {
                Ok(f) => f.spec_bits() == value && f.wf(),
                Err(e) => !(0 <= value <= 0x1ff) && e@ == if 0 <= value <= 0xffff {
                    "Unknown bitflag"@
                } else {
                    "out of range integral type conversion attempted"@
                },
            },
    {
        if value < 0 || value > 0xffff {
            return Err(text("out of range integral type conversion attempted"));
        }
        let v = value as u16;
        if v & !0x1ffu16 != 0 {
            assert(v & !0x1ffu16 != 0 ==> v > 0x1ff) by (bit_vector);
            Err(text("Unknown bitflag"))
        } else {
            assert(v & !0x1ffu16 == 0 ==> v <= 0x1ff) by (bit_vector);
            Ok(Self { bits: v })
        }
    }

    pub fn into_i64(self) -> (r: i64)
        ensures
            r == self.spec_bits(),
    {
        self.bits as i64
    }

    /// The flags of validated search groups.
    pub fn from_validated(value: ValidatedSearchGroups) -> (r: Self)
        ensures
            r.spec_bits() == search_group_bits(match value {
                ValidatedSearchGroups::ManFor { woman, man, non_binary } => SearchGroups {
                    man_for_woman: woman,
                    man_for_man: man,
                    man_for_non_binary: non_binary,
                    ..SearchGroups::default_spec()
                },
                ValidatedSearchGroups::WomanFor { man, woman, non_binary } => SearchGroups {
                    woman_for_man: man,
                    woman_for_woman: woman,
                    woman_for_non_binary: non_binary,
                    ..SearchGroups::default_spec()
                },
                ValidatedSearchGroups::NonBinaryFor { man, woman, non_binary } => SearchGroups {
                    non_binary_for_man: man,
                    non_binary_for_woman: woman,
                    non_binary_for_non_binary: non_binary,
                    ..SearchGroups::default_spec()
                },
            }),
    {
        let bits: u16 = match value {
            ValidatedSearchGroups::ManFor { woman, man, non_binary } => {
                (if woman { Self::MAN_FOR_WOMAN } else { 0 }) | (if man { Self::MAN_FOR_MAN } else { 0 })
                    | (if non_binary { Self::MAN_FOR_NON_BINARY } else { 0 })
            },
            ValidatedSearchGroups::WomanFor { man, woman, non_binary } => {
                (if man { Self::WOMAN_FOR_MAN } else { 0 }) | (if woman { Self::WOMAN_FOR_WOMAN } else { 0 })
                    | (if non_binary { Self::WOMAN_FOR_NON_BINARY } else { 0 })
            },
            ValidatedSearchGroups::NonBinaryFor { man, woman, non_binary } => {
                (if man { Self::NON_BINARY_FOR_MAN } else { 0 }) | (if woman { Self::NON_BINARY_FOR_WOMAN } else { 0 })
                    | (if non_binary { Self::NON_BINARY_FOR_NON_BINARY } else { 0 })
            },
        };
        proof {
            let (x, y, z) = match value {
                ValidatedSearchGroups::ManFor { woman, man, non_binary } => (woman, man, non_binary),
                ValidatedSearchGroups::WomanFor { man, woman, non_binary } => (man, woman, non_binary),
                ValidatedSearchGroups::NonBinaryFor { man, woman, non_binary } => (man, woman, non_binary),
            };
            assert(((if x { 0x1u16 } else { 0u16 }) | (if y { 0x2u16 } else { 0u16 }) | (if z { 0x4u16 } else { 0u16 }))
                == ((if x { 0x1u16 } else { 0u16 }) | (if y { 0x2u16 } else { 0u16 }) | (if z { 0x4u16 } else { 0u16 })
                | 0u16 | 0u16 | 0u16 | 0u16 | 0u16 | 0u16)) by (bit_vector);
            assert(((if x { 0x8u16 } else { 0u16 }) | (if y { 0x10u16 } else { 0u16 }) | (if z { 0x20u16 } else { 0u16 }))
                == (0u16 | 0u16 | 0u16 | (if x { 0x8u16 } else { 0u16 }) | (if y { 0x10u16 } else { 0u16 })
                | (if z { 0x20u16 } else { 0u16 }) | 0u16 | 0u16 | 0u16)) by (bit_vector);
            assert(((if x { 0x40u16 } else { 0u16 }) | (if y { 0x80u16 } else { 0u16 }) | (if z { 0x100u16 } else { 0u16 }))
                == (0u16 | 0u16 | 0u16 | 0u16 | 0u16 | 0u16 | (if x { 0x40u16 } else { 0u16 })
                | (if y { 0x80u16 } else { 0u16 }) | (if z { 0x100u16 } else { 0u16 }))) by (bit_vector);
        }
        Self { bits }
    }
}

impl SearchGroups {
    /// No groups set.
    pub open spec fn default_spec() -> Self {
        Self {
            man_for_woman: false,
            man_for_man: false,
            man_for_non_binary: false,
            woman_for_man: false,
            woman_for_woman: false,
            woman_for_non_binary: false,
            non_binary_for_man: false,
            non_binary_for_woman: false,
            non_binary_for_non_binary: false,
        }
    }
}

/// Search groups as flags and back give the same groups.
pub proof fn lemma_search_group_bits_roundtrip(g: SearchGroups)
    ensures
        search_groups_of_bits(search_group_bits(g)) == g,
{
    let (a, b, c, d, e, f, h, i, j) = (g.man_for_woman, g.man_for_man, g.man_for_non_binary, g.woman_for_man,
        g.woman_for_woman, g.woman_for_non_binary, g.non_binary_for_man, g.non_binary_for_woman,
        g.non_binary_for_non_binary);
    let x = search_group_bits(g);
    assert(x == ((if a { 0x1u16 } else { 0u16 }) | (if b { 0x2u16 } else { 0u16 }) | (if c { 0x4u16 } else { 0u16 })
        | (if d { 0x8u16 } else { 0u16 }) | (if e { 0x10u16 } else { 0u16 }) | (if f { 0x20u16 } else { 0u16 })
        | (if h { 0x40u16 } else { 0u16 }) | (if i { 0x80u16 } else { 0u16 }) | (if j { 0x100u16 } else { 0u16 })));
    assert(x == ((if a { 0x1u16 } else { 0u16 }) | (if b { 0x2u16 } else { 0u16 }) | (if c { 0x4u16 } else { 0u16 })
        | (if d { 0x8u16 } else { 0u16 }) | (if e { 0x10u16 } else { 0u16 }) | (if f { 0x20u16 } else { 0u16 })
        | (if h { 0x40u16 } else { 0u16 }) | (if i { 0x80u16 } else { 0u16 }) | (if j { 0x100u16 } else { 0u16 }))
        ==> ((x & 0x1 != 0) == a && (x & 0x2 != 0) == b && (x & 0x4 != 0) == c && (x & 0x8 != 0) == d
        && (x & 0x10 != 0) == e && (x & 0x20 != 0) == f && (x & 0x40 != 0) == h && (x & 0x80 != 0) == i
        && (x & 0x100 != 0) == j)) by (bit_vector);
}

/// Filter of search group flags: the groups of the profiles that a
/// search finds.
#[derive(Debug, Clone, Copy, Default, PartialEq, Eq, Structural)]
pub struct SearchGroupFlagsFilter {
    filter: SearchGroupFlags,
}

impl SearchGroupFlagsFilter {
    pub closed spec fn spec_filter(self) -> u16 {
        self.filter.spec_bits()
    }

    fn new(flags: SearchGroupFlags) -> (r: Self)
        ensures
            r.spec_filter() == mirrored_search_group_bits(flags.spec_bits()),
    {
        let f = flags.bits;
        let filter: u16 = (if f & SearchGroupFlags::MAN_FOR_WOMAN != 0 { SearchGroupFlags::WOMAN_FOR_MAN } else { 0 })
            | (if f & SearchGroupFlags::MAN_FOR_MAN != 0 { SearchGroupFlags::MAN_FOR_MAN } else { 0 })
            | (if f & SearchGroupFlags::MAN_FOR_NON_BINARY != 0 { SearchGroupFlags::NON_BINARY_FOR_MAN } else { 0 })
            | (if f & SearchGroupFlags::WOMAN_FOR_MAN != 0 { SearchGroupFlags::MAN_FOR_WOMAN } else { 0 })
            | (if f & SearchGroupFlags::WOMAN_FOR_WOMAN != 0 { SearchGroupFlags::WOMAN_FOR_WOMAN } else { 0 })
            | (if f & SearchGroupFlags::WOMAN_FOR_NON_BINARY != 0 { SearchGroupFlags::NON_BINARY_FOR_WOMAN } else { 0 })
            | (if f & SearchGroupFlags::NON_BINARY_FOR_MAN != 0 { SearchGroupFlags::MAN_FOR_NON_BINARY } else { 0 })
            | (if f & SearchGroupFlags::NON_BINARY_FOR_WOMAN != 0 { SearchGroupFlags::WOMAN_FOR_NON_BINARY } else { 0 })
            | (if f & SearchGroupFlags::NON_BINARY_FOR_NON_BINARY != 0 { SearchGroupFlags::NON_BINARY_FOR_NON_BINARY } else { 0 });
        Self { filter: SearchGroupFlags { bits: filter } }
    }

    /// Whether a profile with the groups `flags` is in the filter.
    pub fn is_match(&self, flags: SearchGroupFlags) -> (r: bool)
        ensures
            r == (self.spec_filter() & flags.spec_bits() != 0),
    {
        self.filter.bits & flags.bits != 0
    }
}

/// Matching is mutual: the search of `a` finds `b` exactly when the search
/// of `b` finds `a`.
pub proof fn lemma_search_filter_is_mutual(a: u16, b: u16)
    ensures
        (mirrored_search_group_bits(a) & b != 0) == (mirrored_search_group_bits(b) & a != 0),
{
    assert(((((if a & 0x1 != 0 { 0x8u16 } else { 0u16 }) | (if a & 0x2 != 0 { 0x2u16 } else { 0u16 })
        | (if a & 0x4 != 0 { 0x40u16 } else { 0u16 }) | (if a & 0x8 != 0 { 0x1u16 } else { 0u16 })
        | (if a & 0x10 != 0 { 0x10u16 } else { 0u16 }) | (if a & 0x20 != 0 { 0x80u16 } else { 0u16 })
        | (if a & 0x40 != 0 { 0x4u16 } else { 0u16 }) | (if a & 0x80 != 0 { 0x20u16 } else { 0u16 })
        | (if a & 0x100 != 0 { 0x100u16 } else { 0u16 })) & b) != 0) == ((((if b & 0x1 != 0 { 0x8u16 } else { 0u16 })
        | (if b & 0x2 != 0 { 0x2u16 } else { 0u16 }) | (if b & 0x4 != 0 { 0x40u16 } else { 0u16 })
        | (if b & 0x8 != 0 { 0x1u16 } else { 0u16 }) | (if b & 0x10 != 0 { 0x10u16 } else { 0u16 })
        | (if b & 0x20 != 0 { 0x80u16 } else { 0u16 }) | (if b & 0x40 != 0 { 0x4u16 } else { 0u16 })
        | (if b & 0x80 != 0 { 0x20u16 } else { 0u16 }) | (if b & 0x100 != 0 { 0x100u16 } else { 0u16 })) & a) != 0))
        by (bit_vector);
}

/// Whether someone in the groups `a` searches someone in the groups `b`
/// and is searched back: some "x for y" of `a` has its "y for x" in `b`.
pub open spec fn groups_search_each_other(a: SearchGroups, b: SearchGroups) -> bool {
    ||| a.man_for_woman && b.woman_for_man
    ||| a.man_for_man && b.man_for_man
    ||| a.man_for_non_binary && b.non_binary_for_man
    ||| a.woman_for_man && b.man_for_woman
    ||| a.woman_for_woman && b.woman_for_woman
    ||| a.woman_for_non_binary && b.non_binary_for_woman
    ||| a.non_binary_for_man && b.man_for_non_binary
    ||| a.non_binary_for_woman && b.woman_for_non_binary
    ||| a.non_binary_for_non_binary && b.non_binary_for_non_binary
}

/// Each search group has its documented flag: man for woman 0x1, man for
/// man 0x2, man for non-binary 0x4, woman for man 0x8, woman for woman
/// 0x10, woman for non-binary 0x20, non-binary for man 0x40, non-binary
/// for woman 0x80 and non-binary for non-binary 0x100; no other bit is set.
pub proof fn lemma_search_group_flag_values(a: SearchGroups)
    ensures
        (search_group_bits(a) & 0x1 != 0) == a.man_for_woman,
        (search_group_bits(a) & 0x2 != 0) == a.man_for_man,
        (search_group_bits(a) & 0x4 != 0) == a.man_for_non_binary,
        (search_group_bits(a) & 0x8 != 0) == a.woman_for_man,
        (search_group_bits(a) & 0x10 != 0) == a.woman_for_woman,
        (search_group_bits(a) & 0x20 != 0) == a.woman_for_non_binary,
        (search_group_bits(a) & 0x40 != 0) == a.non_binary_for_man,
        (search_group_bits(a) & 0x80 != 0) == a.non_binary_for_woman,
        (search_group_bits(a) & 0x100 != 0) == a.non_binary_for_non_binary,
        search_group_bits(a) & !0x1ffu16 == 0,
{
    let (a0, a1, a2, a3, a4, a5, a6, a7, a8) = (a.man_for_woman, a.man_for_man, a.man_for_non_binary, a.woman_for_man, a.woman_for_woman, a.woman_for_non_binary, a.non_binary_for_man, a.non_binary_for_woman, a.non_binary_for_non_binary);
    let x = search_group_bits(a);
    assert(x == ((if a0 { 0x1u16 } else { 0u16 }) | (if a1 { 0x2u16 } else { 0u16 }) | (if a2 { 0x4u16 } else { 0u16 }) | (if a3 { 0x8u16 } else { 0u16 }) | (if a4 { 0x10u16 } else { 0u16 }) | (if a5 { 0x20u16 } else { 0u16 }) | (if a6 { 0x40u16 } else { 0u16 }) | (if a7 { 0x80u16 } else { 0u16 }) | (if a8 { 0x100u16 } else { 0u16 })));
    assert(x == ((if a0 { 0x1u16 } else { 0u16 }) | (if a1 { 0x2u16 } else { 0u16 }) | (if a2 { 0x4u16 } else { 0u16 }) | (if a3 { 0x8u16 } else { 0u16 }) | (if a4 { 0x10u16 } else { 0u16 }) | (if a5 { 0x20u16 } else { 0u16 }) | (if a6 { 0x40u16 } else { 0u16 }) | (if a7 { 0x80u16 } else { 0u16 }) | (if a8 { 0x100u16 } else { 0u16 })) ==> ((x & 0x1 != 0) == a0 && (x & 0x2 != 0) == a1 && (x & 0x4 != 0) == a2
        && (x & 0x8 != 0) == a3 && (x & 0x10 != 0) == a4 && (x & 0x20 != 0) == a5 && (x & 0x40 != 0) == a6
        && (x & 0x80 != 0) == a7 && (x & 0x100 != 0) == a8 && x & !0x1ffu16 == 0)) by (bit_vector);
}

/// The filter of a search holds the mirror of each of its groups: a man
/// searching women finds women searching men, a man searching non-binary
/// people finds non-binary people searching men, and so on.
pub proof fn lemma_search_filter_mirrors_groups(a: SearchGroups)
    ensures
        search_groups_of_bits(mirrored_search_group_bits(search_group_bits(a))) == (SearchGroups {
            man_for_woman: a.woman_for_man,
            man_for_man: a.man_for_man,
            man_for_non_binary: a.non_binary_for_man,
            woman_for_man: a.man_for_woman,
            woman_for_woman: a.woman_for_woman,
            woman_for_non_binary: a.non_binary_for_woman,
            non_binary_for_man: a.man_for_non_binary,
            non_binary_for_woman: a.woman_for_non_binary,
            non_binary_for_non_binary: a.non_binary_for_non_binary,
        }),
{
    let (a0, a1, a2, a3, a4, a5, a6, a7, a8) = (a.man_for_woman, a.man_for_man, a.man_for_non_binary, a.woman_for_man, a.woman_for_woman, a.woman_for_non_binary, a.non_binary_for_man, a.non_binary_for_woman, a.non_binary_for_non_binary);
    let x = search_group_bits(a);
    let y = mirrored_search_group_bits(x);
    assert(x == ((if a0 { 0x1u16 } else { 0u16 }) | (if a1 { 0x2u16 } else { 0u16 }) | (if a2 { 0x4u16 } else { 0u16 }) | (if a3 { 0x8u16 } else { 0u16 }) | (if a4 { 0x10u16 } else { 0u16 }) | (if a5 { 0x20u16 } else { 0u16 }) | (if a6 { 0x40u16 } else { 0u16 }) | (if a7 { 0x80u16 } else { 0u16 }) | (if a8 { 0x100u16 } else { 0u16 })));
    assert(y == ((if x & 0x1 != 0 { 0x8u16 } else { 0u16 }) | (if x & 0x2 != 0 { 0x2u16 } else { 0u16 }) | (if x & 0x4 != 0 { 0x40u16 } else { 0u16 }) | (if x & 0x8 != 0 { 0x1u16 } else { 0u16 }) | (if x & 0x10 != 0 { 0x10u16 } else { 0u16 }) | (if x & 0x20 != 0 { 0x80u16 } else { 0u16 }) | (if x & 0x40 != 0 { 0x4u16 } else { 0u16 }) | (if x & 0x80 != 0 { 0x20u16 } else { 0u16 }) | (if x & 0x100 != 0 { 0x100u16 } else { 0u16 })));
    assert(x == ((if a0 { 0x1u16 } else { 0u16 }) | (if a1 { 0x2u16 } else { 0u16 }) | (if a2 { 0x4u16 } else { 0u16 }) | (if a3 { 0x8u16 } else { 0u16 }) | (if a4 { 0x10u16 } else { 0u16 }) | (if a5 { 0x20u16 } else { 0u16 }) | (if a6 { 0x40u16 } else { 0u16 }) | (if a7 { 0x80u16 } else { 0u16 }) | (if a8 { 0x100u16 } else { 0u16 })) && y == ((if x & 0x1 != 0 { 0x8u16 } else { 0u16 }) | (if x & 0x2 != 0 { 0x2u16 } else { 0u16 }) | (if x & 0x4 != 0 { 0x40u16 } else { 0u16 }) | (if x & 0x8 != 0 { 0x1u16 } else { 0u16 }) | (if x & 0x10 != 0 { 0x10u16 } else { 0u16 }) | (if x & 0x20 != 0 { 0x80u16 } else { 0u16 }) | (if x & 0x40 != 0 { 0x4u16 } else { 0u16 }) | (if x & 0x80 != 0 { 0x20u16 } else { 0u16 }) | (if x & 0x100 != 0 { 0x100u16 } else { 0u16 })) ==> ((y & 0x1 != 0) == a3 && (y & 0x2 != 0) == a1
        && (y & 0x4 != 0) == a6 && (y & 0x8 != 0) == a0 && (y & 0x10 != 0) == a4 && (y & 0x20 != 0) == a7
        && (y & 0x40 != 0) == a2 && (y & 0x80 != 0) == a5 && (y & 0x100 != 0) == a8)) by (bit_vector);
}

/// The search of `a` finds `b` exactly when `a` and `b` search each other.
pub proof fn lemma_search_filter_matches_groups(a: SearchGroups, b: SearchGroups)
    ensures
        (mirrored_search_group_bits(search_group_bits(a)) & search_group_bits(b) != 0) == groups_search_each_other(
            a,
            b,
        ),
{
    let (a0, a1, a2, a3, a4, a5, a6, a7, a8) = (a.man_for_woman, a.man_for_man, a.man_for_non_binary, a.woman_for_man, a.woman_for_woman, a.woman_for_non_binary, a.non_binary_for_man, a.non_binary_for_woman, a.non_binary_for_non_binary);
    let (b0, b1, b2, b3, b4, b5, b6, b7, b8) = (b.man_for_woman, b.man_for_man, b.man_for_non_binary, b.woman_for_man, b.woman_for_woman, b.woman_for_non_binary, b.non_binary_for_man, b.non_binary_for_woman, b.non_binary_for_non_binary);
    let x = search_group_bits(a);
    let z = search_group_bits(b);
    let y = mirrored_search_group_bits(x);
    assert(x == ((if a0 { 0x1u16 } else { 0u16 }) | (if a1 { 0x2u16 } else { 0u16 }) | (if a2 { 0x4u16 } else { 0u16 }) | (if a3 { 0x8u16 } else { 0u16 }) | (if a4 { 0x10u16 } else { 0u16 }) | (if a5 { 0x20u16 } else { 0u16 }) | (if a6 { 0x40u16 } else { 0u16 }) | (if a7 { 0x80u16 } else { 0u16 }) | (if a8 { 0x100u16 } else { 0u16 })));
    assert(z == ((if b0 { 0x1u16 } else { 0u16 }) | (if b1 { 0x2u16 } else { 0u16 }) | (if b2 { 0x4u16 } else { 0u16 }) | (if b3 { 0x8u16 } else { 0u16 }) | (if b4 { 0x10u16 } else { 0u16 }) | (if b5 { 0x20u16 } else { 0u16 }) | (if b6 { 0x40u16 } else { 0u16 }) | (if b7 { 0x80u16 } else { 0u16 }) | (if b8 { 0x100u16 } else { 0u16 })));
    assert(y == ((if x & 0x1 != 0 { 0x8u16 } else { 0u16 }) | (if x & 0x2 != 0 { 0x2u16 } else { 0u16 }) | (if x & 0x4 != 0 { 0x40u16 } else { 0u16 }) | (if x & 0x8 != 0 { 0x1u16 } else { 0u16 }) | (if x & 0x10 != 0 { 0x10u16 } else { 0u16 }) | (if x & 0x20 != 0 { 0x80u16 } else { 0u16 }) | (if x & 0x40 != 0 { 0x4u16 } else { 0u16 }) | (if x & 0x80 != 0 { 0x20u16 } else { 0u16 }) | (if x & 0x100 != 0 { 0x100u16 } else { 0u16 })));
    assert(x == ((if a0 { 0x1u16 } else { 0u16 }) | (if a1 { 0x2u16 } else { 0u16 }) | (if a2 { 0x4u16 } else { 0u16 }) | (if a3 { 0x8u16 } else { 0u16 }) | (if a4 { 0x10u16 } else { 0u16 }) | (if a5 { 0x20u16 } else { 0u16 }) | (if a6 { 0x40u16 } else { 0u16 }) | (if a7 { 0x80u16 } else { 0u16 }) | (if a8 { 0x100u16 } else { 0u16 })) && z == ((if b0 { 0x1u16 } else { 0u16 }) | (if b1 { 0x2u16 } else { 0u16 }) | (if b2 { 0x4u16 } else { 0u16 }) | (if b3 { 0x8u16 } else { 0u16 }) | (if b4 { 0x10u16 } else { 0u16 }) | (if b5 { 0x20u16 } else { 0u16 }) | (if b6 { 0x40u16 } else { 0u16 }) | (if b7 { 0x80u16 } else { 0u16 }) | (if b8 { 0x100u16 } else { 0u16 })) && y == ((if x & 0x1 != 0 { 0x8u16 } else { 0u16 }) | (if x & 0x2 != 0 { 0x2u16 } else { 0u16 }) | (if x & 0x4 != 0 { 0x40u16 } else { 0u16 }) | (if x & 0x8 != 0 { 0x1u16 } else { 0u16 }) | (if x & 0x10 != 0 { 0x10u16 } else { 0u16 }) | (if x & 0x20 != 0 { 0x80u16 } else { 0u16 }) | (if x & 0x40 != 0 { 0x4u16 } else { 0u16 }) | (if x & 0x80 != 0 { 0x20u16 } else { 0u16 }) | (if x & 0x100 != 0 { 0x100u16 } else { 0u16 })) ==> ((y & z != 0) == ((a0 && b3)
        || (a1 && b1) || (a2 && b6) || (a3 && b0) || (a4 && b4) || (a5 && b7) || (a6 && b2) || (a7 && b5)
        || (a8 && b8)))) by (bit_vector);
}

/// Search age range as the client gives it: min at least 18, max at most
/// 99.
#[derive(Debug, Clone, Copy, PartialEq, Eq, Structural)]
pub struct ProfileSearchAgeRange {
    /// Min value for this field is 18.
    pub min: u8,
    /// Max value for this field is 99.
    pub max: u8,
}

/// Profile search age range whose min and max are in the inclusive range
/// `[18, 99]`, min not above max.
#[derive(Debug, Clone, Copy, PartialEq, Eq, Structural)]
pub struct ProfileSearchAgeRangeValidated {
    min: ProfileAge,
    max: ProfileAge,
}

impl ProfileSearchAgeRangeValidated {
    pub closed spec fn spec_min(self) -> ProfileAge {
        self.min
    }

    pub closed spec fn spec_max(self) -> ProfileAge {
        self.max
    }

    /// New range from two values, in either order.
    pub fn new(value1: ProfileAge, value2: ProfileAge) -> (r: Self)
        ensures
            value1.spec_value() <= value2.spec_value() ==> r.spec_min() == value1 && r.spec_max() == value2,
            value1.spec_value() > value2.spec_value() ==> r.spec_min() == value2 && r.spec_max() == value1,
    {
        if value1.value() <= value2.value() {
            Self { min: value1, max: value2 }
        } else {
            Self { min: value2, max: value1 }
        }
    }

    pub fn min(&self) -> (r: ProfileAge)
        ensures
            r == self.spec_min(),
    {
        self.min
    }

    pub fn max(&self) -> (r: ProfileAge)
        ensures
            r == self.spec_max(),
    {
        self.max
    }

    /// Whether `age` is in the range, ends included.
    pub fn is_match(&self, age: ProfileAge) -> (r: bool)
        ensures
            r == (self.spec_min().spec_value() <= age.spec_value() <= self.spec_max().spec_value()),
    {
        age.value() >= self.min.value() && age.value() <= self.max.value()
    }

    /// The range of `value`; an error when min is above max or a value is
    /// not in `[18, 99]`.
    pub fn try_from_range(value: ProfileSearchAgeRange) -> (r: Result<Self, String>)
        ensures
            match r {
                Ok(v) => v.spec_min().spec_value() == value.min && v.spec_max().spec_value() == value.max && 18 <= value.min
                    <= value.max <= 99,
                Err(e) => !(18 <= value.min <= value.max <= 99) && e@ == if value.min > value.max {
                    "Min value must be less than or equal to max value"@
                } else {
                    "Profile age must be in range [18, 99]"@
                },
            },
    {
        if value.min > value.max {
            Err(text("Min value must be less than or equal to max value"))
        } else {
            let min = match ProfileAge::try_from(value.min as i64) {
                Ok(v) => v,
                Err(e) => {
                    return Err(e);
                },
            };
            let max = match ProfileAge::try_from(value.max as i64) {
                Ok(v) => v,
                Err(e) => {
                    return Err(e);
                },
            };
            Ok(Self { min, max })
        }
    }
}

/// Filter value for last seen time: -1 shows only profiles which are
/// online; zero and positive values are the max seconds since the profile
/// was online.
#[derive(Debug, Clone, Copy, Default, PartialEq, Eq, Structural)]
pub struct LastSeenTimeFilter {
    pub value: i64,
}

impl LastSeenTimeFilter {
    pub const MIN_VALUE: i64 = -1;

    pub fn new(value: i64) -> (r: Self)
        ensures
            r.value == value,
    {
        Self { value }
    }

    pub fn as_i64(&self) -> (r: &i64)
        ensures
            *r == self.value,
    {
        &self.value
    }

    /// Whether a profile last seen at `last_seen_time` passes the filter at
    /// `current_time`. A profile that is online now (last seen time -1)
    /// passes every filter; other profiles pass a filter of zero or more
    /// when at most that many seconds have passed since they were seen.
    pub open spec fn spec_is_match(self, last_seen_time: LastSeenTime, current_time: UnixTime) -> bool {
        if self.value == -1 {
            last_seen_time.0 == -1
        } else if last_seen_time.0 == -1 {
            true
        } else if last_seen_time.0 <= current_time.ut {
            current_time.ut - last_seen_time.0 <= (if self.value >= 0 {
                self.value as int
            } else {
                self.value + 0x1_0000_0000_0000_0000
            })
        } else {
            false
        }
    }

    /// A profile that is online now passes every filter.
    pub proof fn lemma_online_matches(self, last_seen_time: LastSeenTime, current_time: UnixTime)
        requires
            last_seen_time.0 == -1,
        ensures
            self.spec_is_match(last_seen_time, current_time),
    {
    }

    pub fn is_match(&self, last_seen_time: LastSeenTime, current_time: &UnixTime) -> (r: bool)
        ensures
            r == self.spec_is_match(last_seen_time, *current_time),
    {
        if self.value == -1 {
            last_seen_time.0 == -1
        } else if last_seen_time.0 == -1 {
            true
        } else if last_seen_time.0 <= current_time.ut {
            let seconds_since_last_seen = (current_time.ut as i128 - last_seen_time.0 as i128) as u64;
            let max_seconds_since = if self.value >= 0 {
                self.value as u64
            } else {
                (self.value as i128 + 0x1_0000_0000_0000_0000i128) as u64
            };
            seconds_since_last_seen <= max_seconds_since
        } else {
            false
        }
    }
}

} // verus!
