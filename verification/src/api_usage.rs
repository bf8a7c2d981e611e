//! Counters of API calls.
use vstd::prelude::*;

use std::sync::atomic::AtomicU32;

use crate::backend::UnixTime;
use crate::common::AccountId;

verus! {

/// A counter that holds `value`. vstd models a std atomic without its
/// contents, so the value is not stated.
fn new_counter(value: u32) -> AtomicU32 {
    AtomicU32::new(value)
}

/// The value of `counter`. Other threads may change the counter at any
/// time; the value is read with relaxed ordering.
fn load_counter(counter: &AtomicU32) -> u32 {
    counter.load(std::sync::atomic::Ordering::Relaxed)
}

/// Counters of API calls, one per counted endpoint.
#[derive(Debug)]
pub struct ApiUsage {
    pub get_connect_websocket: AtomicU32,
    pub post_get_next_profile_page: AtomicU32,
    pub post_reset_profile_paging: AtomicU32,
    pub post_automatic_profile_search_get_next_profile_page: AtomicU32,
    pub post_automatic_profile_search_reset_profile_paging: AtomicU32,
    pub get_profile: AtomicU32,
    pub get_content: AtomicU32,
    pub get_profile_content_info: AtomicU32,
    pub post_send_like: AtomicU32,
    pub post_send_message: AtomicU32,
    pub get_video_call_urls: AtomicU32,
}

/// Counter name and value.
#[derive(Debug, Clone, Copy)]
pub struct ApiUsageValue {
    pub name: &'static str,
    pub value: u32,
}

/// Names of the [ApiUsage] counters, in field order.
pub open spec fn api_usage_names() -> Seq<Seq<char>> {
    seq![
        "get_connect_websocket"@,
        "post_get_next_profile_page"@,
        "post_reset_profile_paging"@,
        "post_automatic_profile_search_get_next_profile_page"@,
        "post_automatic_profile_search_reset_profile_paging"@,
        "get_profile"@,
        "get_content"@,
        "get_profile_content_info"@,
        "post_send_like"@,
        "post_send_message"@,
        "get_video_call_urls"@,
    ]
}

impl ApiUsage {
    /// Counters that are all zero. The atomics' contents are not modelled,
    /// so the zeros are not stated.
    pub fn new() -> (r: Self) {
        Self {
            get_connect_websocket: new_counter(0),
            post_get_next_profile_page: new_counter(0),
            post_reset_profile_paging: new_counter(0),
            post_automatic_profile_search_get_next_profile_page: new_counter(0),
            post_automatic_profile_search_reset_profile_paging: new_counter(0),
            get_profile: new_counter(0),
            get_content: new_counter(0),
            get_profile_content_info: new_counter(0),
            post_send_like: new_counter(0),
            post_send_message: new_counter(0),
            get_video_call_urls: new_counter(0),
        }
    }

    /// The current value of each counter with its field name, in field
    /// order.
    pub fn values(&self) -> (r: Vec<ApiUsageValue>)
        ensures
            r@.len() == 11,
            forall|i: int| 0 <= i < 11 ==> (#[trigger] r@[i]).name@ == api_usage_names()[i],
    {
        let mut v: Vec<ApiUsageValue> = Vec::new();
        v.push(ApiUsageValue { name: "get_connect_websocket", value: load_counter(&self.get_connect_websocket) });
        v.push(ApiUsageValue { name: "post_get_next_profile_page", value: load_counter(&self.post_get_next_profile_page) });
        v.push(ApiUsageValue { name: "post_reset_profile_paging", value: load_counter(&self.post_reset_profile_paging) });
        v.push(ApiUsageValue {
            name: "post_automatic_profile_search_get_next_profile_page",
            value: load_counter(&self.post_automatic_profile_search_get_next_profile_page),
        });
        v.push(ApiUsageValue {
            name: "post_automatic_profile_search_reset_profile_paging",
            value: load_counter(&self.post_automatic_profile_search_reset_profile_paging),
        });
        v.push(ApiUsageValue { name: "get_profile", value: load_counter(&self.get_profile) });
        v.push(ApiUsageValue { name: "get_content", value: load_counter(&self.get_content) });
        v.push(ApiUsageValue { name: "get_profile_content_info", value: load_counter(&self.get_profile_content_info) });
        v.push(ApiUsageValue { name: "post_send_like", value: load_counter(&self.post_send_like) });
        v.push(ApiUsageValue { name: "post_send_message", value: load_counter(&self.post_send_message) });
        v.push(ApiUsageValue { name: "get_video_call_urls", value: load_counter(&self.get_video_call_urls) });
        v
    }
}

impl Default for ApiUsage {
    fn default() -> (r: Self) {
        Self::new()
    }
}

/// API usage statistics request. The time range is inclusive;
/// `max_time` must be greater than or equal to `min_time`.
#[derive(Debug, Clone, Copy, PartialEq, Eq, Structural)]
pub struct GetApiUsageStatisticsSettings {
    pub account: AccountId,
    pub max_time: Option<UnixTime>,
    pub min_time: Option<UnixTime>,
}

impl GetApiUsageStatisticsSettings {
    /// All statistics of `account`: no time limits.
    pub fn get_all_statistics(account: AccountId) -> (r: Self)
        ensures
            r == (Self { account, max_time: None, min_time: None }),
    {
        Self { account, max_time: None, min_time: None }
    }
}

/// API usage count at a time.
#[derive(Debug, Clone, Copy, PartialEq, Eq, Structural)]
pub struct ApiUsageCount {
    pub t: UnixTime,
    pub c: i64,
}

/// API usage counts of one counter.
#[derive(Debug, Clone)]
pub struct ApiUsageStatistics {
    pub name: String,
    pub values: Vec<ApiUsageCount>,
}

/// API usage statistics.
#[derive(Debug, Clone)]
pub struct GetApiUsageStatisticsResult {
    pub values: Vec<ApiUsageStatistics>,
}

} // verus!
