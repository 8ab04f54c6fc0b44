//! The host, its devices, default-configuration selection, stream builder
//! parameters and the data callback's bookkeeping.
use vstd::prelude::*;
use crate::audio_manager::AudioDeviceInfo;
use crate::config::{
    DefaultStreamConfigError, HostUnavailable, SupportedStreamConfig, SupportedStreamConfigRange,
};
use crate::probe::{
    default_configs_spec, default_probe_queries, default_query, default_supported_configs,
    device_configs_spec, device_probe_count, device_probe_queries, device_queries_spec,
    device_supported_configs, probe_input_ok, BufferSizeQuery, DEFAULT_GRID_LEN,
};

verus! {

/// The native audio host.
pub struct Host;

impl Host {
    /// The host is always available.
    pub fn new() -> (r: Result<Host, HostUnavailable>)
        ensures
            r is Ok,
    {
        Ok(Host)
    }

    pub fn is_available() -> (r: bool)
        ensures
            r,
    {
        true
    }

    /// The devices, from the platform's answer to the device query for both
    /// directions: one device per record, or the single default device when
    /// the query is not supported.
    pub fn devices(&self, request: Result<Vec<AudioDeviceInfo>, String>) -> (r: Vec<Device>)
        ensures
            devices_spec(request, r@),
    {
        match request {
            Ok(list) => wrap_devices(list),
            Err(_) => {
                let mut out: Vec<Device> = Vec::new();
                out.push(Device(None));
                out
            },
        }
    }

    /// The default input device, from the platform's answer to the device
    /// query for inputs: its first record, none when it lists none, and the
    /// default device when the query is not supported.
    pub fn default_input_device(&self, request: Result<Vec<AudioDeviceInfo>, String>) -> (r: Option<Device>)
        ensures
            default_device_spec(request, r),
    {
        first_device(request)
    }

    /// The default output device, from the platform's answer to the device
    /// query for outputs, chosen as for inputs.
    pub fn default_output_device(&self, request: Result<Vec<AudioDeviceInfo>, String>) -> (r: Option<Device>)
        ensures
            default_device_spec(request, r),
    {
        first_device(request)
    }
}

pub open spec fn devices_spec(request: Result<Vec<AudioDeviceInfo>, String>, r: Seq<Device>) -> bool {
    match request {
        Ok(list) => r.len() == list@.len() && forall|i: int|
            0 <= i < r.len() ==> r[i].0 == Some(list@[i]),
        Err(_) => r.len() == 1 && r[0].0.is_none(),
    }
}

pub open spec fn default_device_spec(request: Result<Vec<AudioDeviceInfo>, String>, r: Option<Device>) -> bool {
    match request {
        Ok(list) => if list@.len() == 0 {
            r.is_none()
        } else {
            r matches Some(d) && d.0 == Some(list@[0])
        },
        Err(_) => r matches Some(d) && d.0.is_none(),
    }
}

fn wrap_devices(list: Vec<AudioDeviceInfo>) -> (r: Vec<Device>)
    ensures
        r@.len() == list@.len(),
        forall|i: int| 0 <= i < r@.len() ==> r@[i].0 == Some(list@[i]),
{
    let mut rest = list;
    let mut out: Vec<Device> = Vec::new();
    while rest.len() > 0
        invariant
            out@.len() + rest@.len() == list@.len(),
            forall|i: int| 0 <= i < out@.len() ==> out@[i].0 == Some(list@[i]),
            forall|i: int| 0 <= i < rest@.len() ==> rest@[i] == list@[out@.len() + i],
        decreases rest@.len(),
    {
        let d = rest.remove(0);
        out.push(Device(Some(d)));
    }
    out
}

fn first_device(request: Result<Vec<AudioDeviceInfo>, String>) -> (r: Option<Device>)
    ensures
        default_device_spec(request, r),
{
    match request {
        Ok(list) => {
            let mut list = list;
            if list.len() == 0 {
                None
            } else {
                let d = list.remove(0);
                Some(Device(Some(d)))
            }
        },
        Err(_) => Some(Device(None)),
    }
}

/// An audio device: one the platform described, or the platform's default
/// device when it describes none.
pub struct Device(pub Option<AudioDeviceInfo>);

#[derive(Clone, Copy, Debug, PartialEq, Eq, Structural)]
pub enum DeviceNameError {
    BackendSpecific,
}

/// The device data that probing can take.
pub open spec fn device_ok(d: Device) -> bool {
    d.0 matches Some(info) ==> probe_input_ok(info)
}

/// The buffer-size queries that probing `d` takes.
pub open spec fn probe_queries_spec(d: Device, is_output: bool) -> Seq<BufferSizeQuery> {
    match d.0 {
        Some(info) => device_queries_spec(info, is_output),
        None => Seq::new(DEFAULT_GRID_LEN as nat, |k: int| default_query(is_output, k)),
    }
}

pub open spec fn probe_count(d: Device) -> nat {
    match d.0 {
        Some(info) => device_probe_count(info),
        None => DEFAULT_GRID_LEN as nat,
    }
}

/// The ranges of `d`, given the platform's answers to its probe queries.
pub open spec fn supported_configs_spec(d: Device, min_sizes: Seq<i32>) -> Seq<SupportedStreamConfigRange> {
    match d.0 {
        Some(info) => device_configs_spec(info, min_sizes),
        None => default_configs_spec(min_sizes),
    }
}

impl Device {
    /// The product name, or "default" for the platform's default device.
    pub fn name(&self) -> (r: Result<String, DeviceNameError>)
        ensures
            r matches Ok(n) && n@ == match self.0 {
                Some(info) => info.product_name@,
                None => "default"@,
            },
    {
        match &self.0 {
            None => Ok("default".to_owned()),
            Some(info) => Ok(info.product_name.clone()),
        }
    }

    /// The buffer-size queries that probing this device takes.
    pub fn probe_queries(&self, is_output: bool) -> (r: Vec<BufferSizeQuery>)
        requires
            device_ok(*self),
        ensures
            r@ == probe_queries_spec(*self, is_output),
            r@.len() == probe_count(*self),
    {
        match &self.0 {
            Some(info) => device_probe_queries(info, is_output),
            None => {
                let r = default_probe_queries(is_output);
                assert(r@ == probe_queries_spec(*self, is_output));
                r
            },
        }
    }

    /// The supported ranges, from the platform's answers to the probe
    /// queries of one direction.
    pub fn supported_configs(&self, min_buffer_sizes: &Vec<i32>) -> (r: Vec<SupportedStreamConfigRange>)
        requires
            device_ok(*self),
            min_buffer_sizes@.len() == probe_count(*self),
        ensures
            r@ == supported_configs_spec(*self, min_buffer_sizes@),
    {
        match &self.0 {
            Some(info) => device_supported_configs(info, min_buffer_sizes),
            None => default_supported_configs(min_buffer_sizes),
        }
    }

    /// The supported input ranges, from the answers to
    /// `probe_queries(false)`.
    pub fn supported_input_configs(&self, min_buffer_sizes: &Vec<i32>) -> (r: Vec<SupportedStreamConfigRange>)
        requires
            device_ok(*self),
            min_buffer_sizes@.len() == probe_count(*self),
        ensures
            r@ == supported_configs_spec(*self, min_buffer_sizes@),
    {
        self.supported_configs(min_buffer_sizes)
    }

    /// The supported output ranges, from the answers to
    /// `probe_queries(true)`.
    pub fn supported_output_configs(&self, min_buffer_sizes: &Vec<i32>) -> (r: Vec<SupportedStreamConfigRange>)
        requires
            device_ok(*self),
            min_buffer_sizes@.len() == probe_count(*self),
        ensures
            r@ == supported_configs_spec(*self, min_buffer_sizes@),
    {
        self.supported_configs(min_buffer_sizes)
    }

    /// The default input configuration, chosen among the supported input
    /// ranges.
    pub fn default_input_config(&self, min_buffer_sizes: &Vec<i32>) -> (r: Result<SupportedStreamConfig, DefaultStreamConfigError>)
        requires
            device_ok(*self),
            min_buffer_sizes@.len() == probe_count(*self),
        ensures
            select_default_spec(supported_configs_spec(*self, min_buffer_sizes@), r),
    {
        let configs = self.supported_input_configs(min_buffer_sizes);
        select_default(&configs)
    }

    /// The default output configuration, chosen among the supported output
    /// ranges.
    pub fn default_output_config(&self, min_buffer_sizes: &Vec<i32>) -> (r: Result<SupportedStreamConfig, DefaultStreamConfigError>)
        requires
            device_ok(*self),
            min_buffer_sizes@.len() == probe_count(*self),
        ensures
            select_default_spec(supported_configs_spec(*self, min_buffer_sizes@), r),
    {
        let configs = self.supported_output_configs(min_buffer_sizes);
        select_default(&configs)
    }
}

// ---------------------------------------------------------------------------
// Default configuration selection.

/// Position `i` holds a greatest range by the default heuristics, and the
/// first such one.
pub open spec fn is_default_choice(ranges: Seq<SupportedStreamConfigRange>, i: int) -> bool {
    &&& 0 <= i < ranges.len()
    &&& forall|j: int|
        0 <= j < ranges.len() ==> ranges[j].heuristic_cmp(ranges[i]) != std::cmp::Ordering::Greater
    &&& forall|j: int| 0 <= j < i ==> ranges[j].heuristic_cmp(ranges[i]) == std::cmp::Ordering::Less
}

pub open spec fn select_default_spec(
    ranges: Seq<SupportedStreamConfigRange>,
    r: Result<SupportedStreamConfig, DefaultStreamConfigError>,
) -> bool {
    if ranges.len() == 0 {
        r == Err::<SupportedStreamConfig, DefaultStreamConfigError>(
            DefaultStreamConfigError::StreamTypeNotSupported,
        )
    } else {
        exists|i: int| is_default_choice(ranges, i) && r == Ok::<SupportedStreamConfig, DefaultStreamConfigError>(
            ranges[i].with_max_sample_rate_spec(),
        )
    }
}

proof fn lemma_heuristic_antisym(a: SupportedStreamConfigRange, b: SupportedStreamConfigRange)
    ensures
        (a.heuristic_cmp(b) == std::cmp::Ordering::Less) == (b.heuristic_cmp(a) == std::cmp::Ordering::Greater),
        (a.heuristic_cmp(b) == std::cmp::Ordering::Equal) == (b.heuristic_cmp(a) == std::cmp::Ordering::Equal),
{
}

proof fn lemma_heuristic_trans(
    a: SupportedStreamConfigRange,
    b: SupportedStreamConfigRange,
    c: SupportedStreamConfigRange,
)
    requires
        a.heuristic_cmp(b) != std::cmp::Ordering::Greater,
        b.heuristic_cmp(c) == std::cmp::Ordering::Less,
    ensures
        a.heuristic_cmp(c) == std::cmp::Ordering::Less,
{
}

/// Picks the default configuration among `ranges`: the first greatest range
/// by the default heuristics, at its maximum sample rate. Fails with
/// `StreamTypeNotSupported` when there is no range.
pub fn select_default(ranges: &Vec<SupportedStreamConfigRange>) -> (r: Result<SupportedStreamConfig, DefaultStreamConfigError>)
    ensures
        select_default_spec(ranges@, r),
{
    if ranges.len() == 0 {
        return Err(DefaultStreamConfigError::StreamTypeNotSupported);
    }
    let mut best: usize = 0;
    let mut k: usize = 1;
    while k < ranges.len()
        invariant
            1 <= k <= ranges@.len(),
            best < k,
            forall|j: int|
                0 <= j < k ==> ranges@[j].heuristic_cmp(ranges@[best as int]) != std::cmp::Ordering::Greater,
            forall|j: int| 0 <= j < best ==> ranges@[j].heuristic_cmp(ranges@[best as int]) == std::cmp::Ordering::Less,
        decreases ranges@.len() - k,
    {
        let c = ranges[k].cmp_default_heuristics(&ranges[best]);
        match c {
            std::cmp::Ordering::Greater => {
                proof {
                    lemma_heuristic_antisym(ranges@[k as int], ranges@[best as int]);
                    assert forall|j: int| 0 <= j < k implies ranges@[j].heuristic_cmp(ranges@[k as int])
                        == std::cmp::Ordering::Less by {
                        lemma_heuristic_trans(ranges@[j], ranges@[best as int], ranges@[k as int]);
                    }
                }
                best = k;
            },
            _ => {},
        }
        k = k + 1;
    }
    let chosen = ranges[best].with_max_sample_rate();
    assert(is_default_choice(ranges@, best as int));
    Ok(chosen)
}

/// Selection is a function of the ranges: any two results that meet the
/// selection contract on the same ranges are equal.
pub proof fn lemma_select_default_deterministic(
    ranges: Seq<SupportedStreamConfigRange>,
    r1: Result<SupportedStreamConfig, DefaultStreamConfigError>,
    r2: Result<SupportedStreamConfig, DefaultStreamConfigError>,
)
    requires
        select_default_spec(ranges, r1),
        select_default_spec(ranges, r2),
    ensures
        r1 == r2,
{
    if ranges.len() > 0 {
        let i1 = choose|i: int| is_default_choice(ranges, i) && r1 == Ok::<SupportedStreamConfig, DefaultStreamConfigError>(
            ranges[i].with_max_sample_rate_spec(),
        );
        let i2 = choose|i: int| is_default_choice(ranges, i) && r2 == Ok::<SupportedStreamConfig, DefaultStreamConfigError>(
            ranges[i].with_max_sample_rate_spec(),
        );
        if i1 < i2 {
            lemma_heuristic_antisym(ranges[i1], ranges[i2]);
        } else if i2 < i1 {
            lemma_heuristic_antisym(ranges[i2], ranges[i1]);
        }
    }
}

} // verus!
