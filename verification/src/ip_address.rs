//! IP addresses of clients and the per-country request statistics.
use vstd::prelude::*;

use crate::backend::UnixTime;
use crate::common::AccountId;
use crate::text::text;

verus! {

/// IPv4 or IPv6 address held as its octets.
#[derive(Debug, Clone, Copy, PartialEq, Eq, Hash)]
pub enum IpAddressInternal {
    V4([u8; 4]),
    V6([u8; 16]),
}

impl IpAddressInternal {
    /// The octets of the address.
    pub open spec fn octets(self) -> Seq<u8> {
        match self {
            Self::V4(v) => v@,
            Self::V6(v) => v@,
        }
    }

    /// The address whose octets are `value`: 4 octets make an IPv4
    /// address and 16 an IPv6 address. Any other length is refused with
    /// the text of std's slice to array conversion error.
    pub fn try_from_bytes(value: &[u8]) -> (r: Result<Self, String>)
        ensures
            value@.len() == 4 <==> r matches Ok(Self::V4(_)),
            value@.len() == 16 <==> r matches Ok(Self::V6(_)),
            r is Err <==> (value@.len() != 4 && value@.len() != 16),
            r matches Ok(a) ==> a.octets() == value@,
            r matches Err(e) ==> e@ == "could not convert slice to array"@,
    {
        if value.len() == 4 {
            let a = [value[0], value[1], value[2], value[3]];
            assert(a@ =~= value@);
            Ok(Self::V4(a))
        } else if value.len() == 16 {
            let a = [value[0], value[1], value[2], value[3], value[4], value[5], value[6], value[7],
                value[8], value[9], value[10], value[11], value[12], value[13], value[14], value[15]];
            assert(a@ =~= value@);
            Ok(Self::V6(a))
        } else {
            Err(text("could not convert slice to array"))
        }
    }

    /// Whether the two addresses are the same address of the same kind.
    pub fn is_same_address(&self, other: &Self) -> (r: bool)
        ensures
            r == (*self == *other),
    {
        match *self {
            Self::V4(a) => match *other {
                Self::V4(b) => {
                    let same = a[0] == b[0] && a[1] == b[1] && a[2] == b[2] && a[3] == b[3];
                    if same {
                        assert(a@ =~= b@);
                        assert(a == b);
                        assert(*self == Self::V4(a));
                        assert(*other == Self::V4(b));
                        assert(*self == *other);
                    } else {
                        assert(a@ != b@);
                        assert(*self == Self::V4(a));
                        assert(*other == Self::V4(b));
                        assert(*self != *other);
                    }
                    assert(same == (*self == *other));
                    same
                },
                Self::V6(_) => {
                    assert(*self != *other);
                    false
                },
            },
            Self::V6(a) => match *other {
                Self::V4(_) => false,
                Self::V6(b) => {
                    let mut i: usize = 0;
                    while i < 16
                        invariant
                            i <= 16,
                            forall|j: int| 0 <= j < i ==> a@[j] == b@[j],
                            *self == Self::V6(a),
                            *other == Self::V6(b),
                        decreases 16 - i,
                    {
                        if a[i] != b[i] {
                            assert(a@[i as int] != b@[i as int]);
                            return false;
                        }
                        i = i + 1;
                    }
                    assert(a@ =~= b@);
                    assert(a == b);
                    true
                },
            },
        }
    }

    /// The octets of the address.
    pub fn as_ref(&self) -> (r: &[u8])
        ensures
            r@ == self.octets(),
    {
        match self {
            Self::V4(v) => v.as_slice(),
            Self::V6(v) => v.as_slice(),
        }
    }
}

/// How often and when an IP address was used.
#[derive(Debug, Clone, Copy, PartialEq, Eq, Structural)]
pub struct IpInfo {
    usage_count: i64,
    first_usage: UnixTime,
    latest_usage: UnixTime,
}

impl IpInfo {
    /// First use of an address at `time`.
    pub fn new_at(time: UnixTime) -> (r: Self)
        ensures
            r.spec_usage_count() == 1,
            r.spec_first_usage() == time,
            r.spec_latest_usage() == time,
    {
        Self { usage_count: 1, first_usage: time, latest_usage: time }
    }

    /// First use of an address at the current time.
    pub fn new() -> (r: Self)
        ensures
            r.spec_usage_count() == 1,
            r.spec_first_usage() == r.spec_latest_usage(),
    {
        Self::new_at(UnixTime::current_time())
    }

    pub closed spec fn spec_usage_count(self) -> i64 {
        self.usage_count
    }

    pub closed spec fn spec_first_usage(self) -> UnixTime {
        self.first_usage
    }

    pub closed spec fn spec_latest_usage(self) -> UnixTime {
        self.latest_usage
    }

    /// Counts one more use at `time`. The count stops at `i64::MAX`.
    pub fn update_usage_info_at(&mut self, time: UnixTime)
        ensures
            final(self).spec_usage_count() == if old(self).spec_usage_count() < i64::MAX {
                old(self).spec_usage_count() + 1
            } else {
                old(self).spec_usage_count() as int
            },
            final(self).spec_first_usage() == old(self).spec_first_usage(),
            final(self).spec_latest_usage() == time,
    {
        if self.usage_count < i64::MAX {
            self.usage_count = self.usage_count + 1;
        }
        self.latest_usage = time;
    }

    /// Counts one more use at the current time.
    pub fn update_usage_info(&mut self)
        ensures
            final(self).spec_usage_count() == if old(self).spec_usage_count() < i64::MAX {
                old(self).spec_usage_count() + 1
            } else {
                old(self).spec_usage_count() as int
            },
            final(self).spec_first_usage() == old(self).spec_first_usage(),
    {
        self.update_usage_info_at(UnixTime::current_time());
    }

    pub fn usage_count(&self) -> (r: i64)
        ensures
            r == self.spec_usage_count(),
    {
        self.usage_count
    }

    pub fn first_usage(&self) -> (r: UnixTime)
        ensures
            r == self.spec_first_usage(),
    {
        self.first_usage
    }

    pub fn latest_usage(&self) -> (r: UnixTime)
        ensures
            r == self.spec_latest_usage(),
    {
        self.latest_usage
    }
}

impl Default for IpInfo {
    fn default() -> (r: Self)
        ensures
            r.spec_usage_count() == 1,
            r.spec_first_usage() == r.spec_latest_usage(),
    {
        Self::new()
    }
}

/// Usage info of the IP addresses of an account, one entry per address.
#[derive(Debug, Clone)]
pub struct IpAddressStorage {
    pub ips: Vec<(IpAddressInternal, IpInfo)>,
}

impl IpAddressStorage {
    /// Storage with one address, used once now.
    pub fn new(ip: IpAddressInternal) -> (r: Self)
        ensures
            r.ips@.len() == 1,
            r.ips@[0].0 == ip,
            r.ips@[0].1.spec_usage_count() == 1,
    {
        let mut ips: Vec<(IpAddressInternal, IpInfo)> = Vec::new();
        ips.push((ip, IpInfo::new()));
        Self { ips }
    }
}

/// Which counter the IP country statistics report.
#[derive(Debug, Clone, Copy, PartialEq, Eq, Structural)]
pub enum IpCountryStatisticsType {
    NewTcpConnections,
    NewHttpRequests,
}

/// Counters of one country in the IP country tracker.
#[derive(Debug, Clone, Copy, Default, PartialEq, Eq, Structural)]
pub struct IpCountryCounters {
    pub tcp_connections: i64,
    pub http_requests: i64,
}

/// IP country statistics request. The time range is inclusive;
/// `max_time` must be greater than or equal to `min_time`.
#[derive(Debug, Clone, Copy, PartialEq, Eq, Structural)]
pub struct GetIpCountryStatisticsSettings {
    pub max_time: Option<UnixTime>,
    pub min_time: Option<UnixTime>,
    pub statistics_type: IpCountryStatisticsType,
    /// Get statistics from RAM instead of the database.
    pub data_from_ram: bool,
}

/// One statistics value: the count and, for saved statistics, the time.
#[derive(Debug, Clone, Copy, PartialEq, Eq, Structural)]
pub struct IpCountryStatisticsValue {
    pub t: Option<UnixTime>,
    pub c: i64,
}

/// Statistics values of one country.
#[derive(Debug, Clone)]
pub struct IpCountryStatistics {
    pub country: String,
    pub values: Vec<IpCountryStatisticsValue>,
}

/// IP country statistics.
#[derive(Debug, Clone)]
pub struct GetIpCountryStatisticsResult {
    pub values: Vec<IpCountryStatistics>,
}

/// The counter of the requested statistics type.
pub open spec fn selected_count(counters: IpCountryCounters, t: IpCountryStatisticsType) -> i64 {
    match t {
        IpCountryStatisticsType::NewTcpConnections => counters.tcp_connections,
        IpCountryStatisticsType::NewHttpRequests => counters.http_requests,
    }
}

/// The countries of `data` whose selected counter is not zero, in order,
/// with that counter.
pub open spec fn nonzero_country_counts(data: Seq<(String, IpCountryCounters)>, t: IpCountryStatisticsType) -> Seq<(Seq<char>, i64)>
    decreases data.len(),
{
    if data.len() == 0 {
        Seq::empty()
    } else {
        let rest = nonzero_country_counts(data.drop_last(), t);
        let c = selected_count(data.last().1, t);
        if c == 0 { rest } else { rest.push((data.last().0@, c)) }
    }
}

impl GetIpCountryStatisticsResult {
    /// The statistics of the IP country tracker: for each country whose
    /// counter of the requested type is not zero, one value with that
    /// count and no time. Countries keep the order of `data`.
    pub fn new_from_ip_country_tracker_state(
        data: Vec<(String, IpCountryCounters)>,
        settings: GetIpCountryStatisticsSettings,
    ) -> (r: Self)
        ensures
            r.values@.len() == nonzero_country_counts(data@, settings.statistics_type).len(),
            forall|i: int| 0 <= i < r.values@.len() ==> {
                let s = #[trigger] r.values@[i];
                &&& s.country@ == nonzero_country_counts(data@, settings.statistics_type)[i].0
                &&& s.values@ == seq![IpCountryStatisticsValue {
                    t: None,
                    c: nonzero_country_counts(data@, settings.statistics_type)[i].1,
                }]
            },
    {
        let mut values: Vec<IpCountryStatistics> = Vec::new();
        let mut rest = data;
        let ghost all = rest@;
        let ghost t = settings.statistics_type;
        let mut done: usize = 0;
        let n = rest.len();
        while rest.len() > 0
            invariant
                rest@.len() + done == n,
                n == all.len(),
                rest@ == all.subrange(done as int, n as int),
                values@.len() == nonzero_country_counts(all.subrange(0, done as int), t).len(),
                forall|i: int| 0 <= i < values@.len() ==> {
                    let s = #[trigger] values@[i];
                    &&& s.country@ == nonzero_country_counts(all.subrange(0, done as int), t)[i].0
                    &&& s.values@ == seq![IpCountryStatisticsValue {
                        t: None,
                        c: nonzero_country_counts(all.subrange(0, done as int), t)[i].1,
                    }]
                },
                t == settings.statistics_type,
            decreases rest@.len(),
        {
            let (country, counters) = rest.remove(0);
            proof {
                assert(rest@ =~= all.subrange(done + 1, n as int));
                assert(all.subrange(0, done + 1).drop_last() =~= all.subrange(0, done as int));
            }
            let c = match settings.statistics_type {
                IpCountryStatisticsType::NewTcpConnections => counters.tcp_connections,
                IpCountryStatisticsType::NewHttpRequests => counters.http_requests,
            };
            if c != 0 {
                let value = IpCountryStatisticsValue { t: None, c };
                let mut v: Vec<IpCountryStatisticsValue> = Vec::new();
                v.push(value);
                assert(v@ =~= seq![value]);
                values.push(IpCountryStatistics { country, values: v });
            }
            done = done + 1;
        }
        assert(all.subrange(0, n as int) =~= all);
        Self { values }
    }
}

/// IP address statistics request of an account.
#[derive(Debug, Clone, Copy, PartialEq, Eq, Structural)]
pub struct GetIpAddressStatisticsSettings {
    pub account: AccountId,
}

/// Usage info of one IP address.
#[derive(Debug, Clone)]
pub struct IpAddressInfo {
    /// IP address
    pub a: String,
    /// Usage count
    pub c: i64,
    /// First usage time
    pub f: UnixTime,
    /// Latest usage time
    pub l: UnixTime,
    /// IP list names. The IP address belongs to these IP lists.
    pub lists: Vec<String>,
    pub country: Option<String>,
}

/// IP address statistics of an account.
#[derive(Debug, Clone)]
pub struct GetIpAddressStatisticsResult {
    /// Latest used IP address is the first value.
    pub values: Vec<IpAddressInfo>,
}

/// Usage of one IP address as stored in the database.
#[derive(Debug, Clone, Copy)]
pub struct IpAddressInfoInternal {
    pub ip_address: IpAddressInternal,
    pub usage_count: i64,
    pub first_usage_unix_time: UnixTime,
    pub latest_usage_unix_time: UnixTime,
}

} // verus!
