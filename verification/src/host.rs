//! What the machine is: readings of its parts, put together without inventing
//! values that could not be read.
use crate::json::Real;
use crate::text;
use vstd::prelude::*;
use vstd::string::*;

verus! {

/// Where a reading was taken.
#[derive(Clone, Copy, Debug, PartialEq, Eq, Structural)]
pub enum ResourceSource {
    Host,
    Container,
    Worker,
}

impl ResourceSource {
    /// The name of the value in documents.
    pub open spec fn name(self) -> Seq<char> {
        match self {
            ResourceSource::Host => "host"@,
            ResourceSource::Container => "container"@,
            ResourceSource::Worker => "worker"@,
        }
    }

    /// The name of the value in documents.
    pub fn api_name(&self) -> (name: &'static str)
        ensures
            name@ == self.name(),
    {
        match self {
            ResourceSource::Host => "host",
            ResourceSource::Container => "container",
            ResourceSource::Worker => "worker",
        }
    }
}

/// The operating system.
#[derive(Debug)]
pub struct SystemMetrics {
    pub source: ResourceSource,
    pub os: Option<String>,
    pub os_version: Option<String>,
    pub kernel: Option<String>,
    pub hostname: Option<String>,
    pub architecture: Option<String>,
    pub uptime_seconds: Option<u64>,
    pub measured_at_unix: u64,
}

/// What [`SystemMetrics`] says.
#[verifier::ext_equal]
pub struct SystemMetricsView {
    pub source: ResourceSource,
    pub os: Option<Seq<char>>,
    pub os_version: Option<Seq<char>>,
    pub kernel: Option<Seq<char>>,
    pub hostname: Option<Seq<char>>,
    pub architecture: Option<Seq<char>>,
    pub uptime_seconds: Option<u64>,
    pub measured_at_unix: u64,
}

impl View for SystemMetrics {
    type V = SystemMetricsView;

    open spec fn view(&self) -> SystemMetricsView {
        SystemMetricsView {
            source: self.source,
            os: text::opt(self.os),
            os_version: text::opt(self.os_version),
            kernel: text::opt(self.kernel),
            hostname: text::opt(self.hostname),
            architecture: text::opt(self.architecture),
            uptime_seconds: self.uptime_seconds,
            measured_at_unix: self.measured_at_unix,
        }
    }
}

impl SystemMetrics {
    /// A copy of the value.
    pub fn copy(&self) -> (copy: Self)
        ensures
            copy@ == self@,
    {
        SystemMetrics {
            source: self.source,
            os: text::copy_opt(&self.os),
            os_version: text::copy_opt(&self.os_version),
            kernel: text::copy_opt(&self.kernel),
            hostname: text::copy_opt(&self.hostname),
            architecture: text::copy_opt(&self.architecture),
            uptime_seconds: self.uptime_seconds,
            measured_at_unix: self.measured_at_unix,
        }
    }
}

/// The processor.
#[derive(Debug)]
pub struct CpuMetrics {
    pub source: ResourceSource,
    pub model: Option<String>,
    pub physical_cores: Option<usize>,
    pub logical_cpus: Option<usize>,
    pub frequency_mhz: Option<u64>,
    pub utilization_percent: Option<Real>,
    pub temperature_celsius: Option<Real>,
}

/// What [`CpuMetrics`] says.
#[verifier::ext_equal]
pub struct CpuMetricsView {
    pub source: ResourceSource,
    pub model: Option<Seq<char>>,
    pub physical_cores: Option<usize>,
    pub logical_cpus: Option<usize>,
    pub frequency_mhz: Option<u64>,
    pub utilization_percent: Option<Real>,
    pub temperature_celsius: Option<Real>,
}

impl View for CpuMetrics {
    type V = CpuMetricsView;

    open spec fn view(&self) -> CpuMetricsView {
        CpuMetricsView {
            source: self.source,
            model: text::opt(self.model),
            physical_cores: self.physical_cores,
            logical_cpus: self.logical_cpus,
            frequency_mhz: self.frequency_mhz,
            utilization_percent: self.utilization_percent,
            temperature_celsius: self.temperature_celsius,
        }
    }
}

impl CpuMetrics {
    /// A copy of the value.
    pub fn copy(&self) -> (copy: Self)
        ensures
            copy@ == self@,
    {
        CpuMetrics {
            source: self.source,
            model: text::copy_opt(&self.model),
            physical_cores: self.physical_cores,
            logical_cpus: self.logical_cpus,
            frequency_mhz: self.frequency_mhz,
            utilization_percent: self.utilization_percent,
            temperature_celsius: self.temperature_celsius,
        }
    }
}

/// The memory.
#[derive(Debug)]
pub struct RamMetrics {
    pub source: ResourceSource,
    pub total_bytes: Option<u64>,
    pub used_bytes: Option<u64>,
    pub available_bytes: Option<u64>,
    pub memory_type: Option<String>,
}

/// What [`RamMetrics`] says.
#[verifier::ext_equal]
pub struct RamMetricsView {
    pub source: ResourceSource,
    pub total_bytes: Option<u64>,
    pub used_bytes: Option<u64>,
    pub available_bytes: Option<u64>,
    pub memory_type: Option<Seq<char>>,
}

impl View for RamMetrics {
    type V = RamMetricsView;

    open spec fn view(&self) -> RamMetricsView {
        RamMetricsView {
            source: self.source,
            total_bytes: self.total_bytes,
            used_bytes: self.used_bytes,
            available_bytes: self.available_bytes,
            memory_type: text::opt(self.memory_type),
        }
    }
}

impl RamMetrics {
    /// A copy of the value.
    pub fn copy(&self) -> (copy: Self)
        ensures
            copy@ == self@,
    {
        RamMetrics {
            source: self.source,
            total_bytes: self.total_bytes,
            used_bytes: self.used_bytes,
            available_bytes: self.available_bytes,
            memory_type: text::copy_opt(&self.memory_type),
        }
    }
}

/// A graphics card.
#[derive(Debug)]
pub struct GpuMetrics {
    pub source: ResourceSource,
    pub manufacturer: Option<String>,
    pub model: Option<String>,
    pub backend: Option<String>,
    pub vram_total_bytes: Option<u64>,
    pub vram_used_bytes: Option<u64>,
    pub vram_available_bytes: Option<u64>,
    pub utilization_percent: Option<Real>,
    pub temperature_celsius: Option<Real>,
    pub driver_version: Option<String>,
    pub runtime_version: Option<String>,
}

/// What [`GpuMetrics`] says.
#[verifier::ext_equal]
pub struct GpuMetricsView {
    pub source: ResourceSource,
    pub manufacturer: Option<Seq<char>>,
    pub model: Option<Seq<char>>,
    pub backend: Option<Seq<char>>,
    pub vram_total_bytes: Option<u64>,
    pub vram_used_bytes: Option<u64>,
    pub vram_available_bytes: Option<u64>,
    pub utilization_percent: Option<Real>,
    pub temperature_celsius: Option<Real>,
    pub driver_version: Option<Seq<char>>,
    pub runtime_version: Option<Seq<char>>,
}

impl View for GpuMetrics {
    type V = GpuMetricsView;

    open spec fn view(&self) -> GpuMetricsView {
        GpuMetricsView {
            source: self.source,
            manufacturer: text::opt(self.manufacturer),
            model: text::opt(self.model),
            backend: text::opt(self.backend),
            vram_total_bytes: self.vram_total_bytes,
            vram_used_bytes: self.vram_used_bytes,
            vram_available_bytes: self.vram_available_bytes,
            utilization_percent: self.utilization_percent,
            temperature_celsius: self.temperature_celsius,
            driver_version: text::opt(self.driver_version),
            runtime_version: text::opt(self.runtime_version),
        }
    }
}

impl GpuMetrics {
    /// A copy of the value.
    pub fn copy(&self) -> (copy: Self)
        ensures
            copy@ == self@,
    {
        GpuMetrics {
            source: self.source,
            manufacturer: text::copy_opt(&self.manufacturer),
            model: text::copy_opt(&self.model),
            backend: text::copy_opt(&self.backend),
            vram_total_bytes: self.vram_total_bytes,
            vram_used_bytes: self.vram_used_bytes,
            vram_available_bytes: self.vram_available_bytes,
            utilization_percent: self.utilization_percent,
            temperature_celsius: self.temperature_celsius,
            driver_version: text::copy_opt(&self.driver_version),
            runtime_version: text::copy_opt(&self.runtime_version),
        }
    }
}

/// A volume of the disks.
#[derive(Debug)]
pub struct StorageVolume {
    pub name: Option<String>,
    pub mount_point: String,
    pub filesystem: Option<String>,
    pub storage_type: Option<String>,
    pub total_bytes: Option<u64>,
    pub used_bytes: Option<u64>,
    pub available_bytes: Option<u64>,
}

/// What [`StorageVolume`] says.
#[verifier::ext_equal]
pub struct VolumeView {
    pub name: Option<Seq<char>>,
    pub mount_point: Seq<char>,
    pub filesystem: Option<Seq<char>>,
    pub storage_type: Option<Seq<char>>,
    pub total_bytes: Option<u64>,
    pub used_bytes: Option<u64>,
    pub available_bytes: Option<u64>,
}

impl View for StorageVolume {
    type V = VolumeView;

    open spec fn view(&self) -> VolumeView {
        VolumeView {
            name: text::opt(self.name),
            mount_point: self.mount_point@,
            filesystem: text::opt(self.filesystem),
            storage_type: text::opt(self.storage_type),
            total_bytes: self.total_bytes,
            used_bytes: self.used_bytes,
            available_bytes: self.available_bytes,
        }
    }
}

impl StorageVolume {
    /// A copy of the value.
    pub fn copy(&self) -> (copy: Self)
        ensures
            copy@ == self@,
    {
        StorageVolume {
            name: text::copy_opt(&self.name),
            mount_point: self.mount_point.clone(),
            filesystem: text::copy_opt(&self.filesystem),
            storage_type: text::copy_opt(&self.storage_type),
            total_bytes: self.total_bytes,
            used_bytes: self.used_bytes,
            available_bytes: self.available_bytes,
        }
    }
}

/// The volumes of the disks, and what they make together.
#[derive(Debug)]
pub struct StorageMetrics {
    pub source: ResourceSource,
    pub total_bytes: Option<u64>,
    pub used_bytes: Option<u64>,
    pub available_bytes: Option<u64>,
    pub volumes: Vec<StorageVolume>,
}

/// The whole machine at one time.
#[derive(Debug)]
pub struct HostSnapshot {
    pub source: ResourceSource,
    pub agent_version: String,
    pub system: SystemMetrics,
    pub cpu: CpuMetrics,
    pub ram: RamMetrics,
    pub gpus: Vec<GpuMetrics>,
    pub storage: StorageMetrics,
}

// ---------------------------------------------------------------------------
// Readings
// ---------------------------------------------------------------------------

/// A text without the space around it, where something is left.
pub open spec fn filled(value: Option<Seq<char>>) -> Option<Seq<char>> {
    match value {
        Some(found) => if text::trimmed(found).len() == 0 {
            None
        } else {
            Some(text::trimmed(found))
        },
        None => None,
    }
}

/// A text without the space around it, where something is left.
pub fn non_empty(value: Option<&str>) -> (result: Option<String>)
    ensures
        text::opt(result) == filled(text::opt_str(value)),
{
    match value {
        Some(found) => {
            let rest = text::trim(found);
            if text::chars_of(rest).len() == 0 {
                None
            } else {
                Some(rest.to_owned())
            }
        },
        None => None,
    }
}

/// The bit pattern of the double 100.
pub const HUNDRED: u64 = 0x4059_0000_0000_0000;

/// The bit pattern of the double 200.
pub const TWO_HUNDRED: u64 = 0x4069_0000_0000_0000;

/// The least bit pattern with the sign set: that of the double -0.
pub const SIGN: u64 = 0x8000_0000_0000_0000;

/// The bit pattern of the infinite double; patterns from here to the sign are no
/// numbers.
pub const INFINITE: u64 = 0x7ff0_0000_0000_0000;

/// Whether a bit pattern is that of a finite double.
pub open spec fn finite(bits: u64) -> bool {
    if bits < SIGN {
        bits < INFINITE
    } else {
        bits - SIGN < INFINITE
    }
}

/// A share in percent, by its bit pattern: kept between 0 and 100, and dropped
/// where it is no finite number.
pub open spec fn share(bits: u64) -> Option<u64> {
    if !finite(bits) {
        None
    } else if bits > SIGN {
        Some(0)
    } else if bits < SIGN && bits > HUNDRED {
        Some(HUNDRED)
    } else {
        Some(bits)
    }
}

/// A share in percent, by its bit pattern.
pub fn percentage(bits: u64) -> (result: Option<u64>)
    ensures
        result == share(bits),
{
    let magnitude: u64 = if bits < SIGN {
        bits
    } else {
        bits - SIGN
    };
    if magnitude >= INFINITE {
        None
    } else if bits > SIGN {
        Some(0)
    } else if bits < SIGN && bits > HUNDRED {
        Some(HUNDRED)
    } else {
        Some(bits)
    }
}

/// A temperature, by its bit pattern: only between 0 and 200 degrees, both left
/// out, is it one. A sensor that cannot be read often gives 0.
pub open spec fn warmth(bits: u64) -> Option<u64> {
    if 0 < bits < TWO_HUNDRED {
        Some(bits)
    } else {
        None
    }
}

/// A temperature, by its bit pattern.
pub fn temperature(bits: u64) -> (result: Option<u64>)
    ensures
        result == warmth(bits),
{
    if 0 < bits && bits < TWO_HUNDRED {
        Some(bits)
    } else {
        None
    }
}

/// A reading as a number.
pub open spec fn as_real(bits: Option<u64>) -> Option<Real> {
    match bits {
        Some(pattern) => Some(Real::Bits(pattern)),
        None => None,
    }
}

fn to_real(bits: Option<u64>) -> (number: Option<Real>)
    ensures
        number == as_real(bits),
{
    match bits {
        Some(pattern) => Some(Real::Bits(pattern)),
        None => None,
    }
}

/// A sensor: its label, and the bit pattern of its temperature.
#[derive(Debug)]
pub struct Sensor {
    pub label: String,
    pub temperature: Option<u64>,
}

/// Whether a label is one of a sensor of the processor.
pub open spec fn processor_label(label: Seq<char>) -> bool {
    let name = text::lower(label);
    text::occurs(name, "cpu"@) || text::occurs(name, "package"@) || text::occurs(name, "tctl"@)
        || text::occurs(name, "soc"@)
}

/// What a sensor says of the processor.
pub open spec fn processor_warmth(sensor: Sensor) -> Option<u64> {
    match sensor.temperature {
        Some(bits) => if processor_label(sensor.label@) {
            warmth(bits)
        } else {
            None
        },
        None => None,
    }
}

/// The greatest temperature that sensors give for the processor.
pub open spec fn warmest(sensors: Seq<Sensor>) -> Option<u64>
    decreases sensors.len(),
{
    if sensors.len() == 0 {
        None
    } else {
        let before = warmest(sensors.drop_last());
        match (before, processor_warmth(sensors.last())) {
            (Some(first), Some(second)) => Some(
                if first > second {
                    first
                } else {
                    second
                },
            ),
            (None, last) => last,
            (first, None) => first,
        }
    }
}

/// The greatest temperature that sensors give for the processor.
pub fn cpu_temperature(sensors: &Vec<Sensor>) -> (result: Option<u64>)
    ensures
        result == warmest(sensors@),
{
    let mut found: Option<u64> = None;
    assert(sensors@.take(0) =~= Seq::<Sensor>::empty());
    for i in 0..sensors.len()
        invariant
            found == warmest(sensors@.take(i as int)),
    {
        assert(sensors@.take(i + 1).drop_last() =~= sensors@.take(i as int));
        assert(sensors@.take(i + 1).last() == sensors@[i as int]);
        let name = text::ascii_lowercase(sensors[i].label.as_str());
        let processor = text::contains(name.as_str(), "cpu") || text::contains(
            name.as_str(),
            "package",
        ) || text::contains(name.as_str(), "tctl") || text::contains(name.as_str(), "soc");
        if processor {
            match sensors[i].temperature {
                Some(bits) => match temperature(bits) {
                    Some(value) => {
                        found = match found {
                            Some(before) => if before > value {
                                Some(before)
                            } else {
                                Some(value)
                            },
                            None => Some(value),
                        };
                    },
                    None => {},
                },
                None => {},
            }
        }
    }
    assert(sensors@.take(sensors@.len() as int) =~= sensors@);
    found
}

// ---------------------------------------------------------------------------
// Cards of NVIDIA
// ---------------------------------------------------------------------------

/// The mark in front of the version of CUDA.
pub open spec fn cuda_mark() -> Seq<char> {
    "CUDA Version:"@
}

/// Whether a place is the first of a needle in a text.
pub open spec fn first_place(content: Seq<char>, needle: Seq<char>, at: int) -> bool {
    text::occurs_at(content, needle, at) && forall|before: int|
        0 <= before < at ==> !text::occurs_at(content, needle, before)
}

fn find_text(content: &str, needle: &str) -> (at: Option<usize>)
    ensures
        match at {
            Some(place) => first_place(content@, needle@, place as int),
            None => !text::occurs(content@, needle@),
        },
{
    let whole: usize = text::chars_of(content).len();
    let size: usize = text::chars_of(needle).len();
    if size > whole {
        return None;
    }
    let last: usize = whole - size;
    let mut at: usize = 0;
    while at <= last
        invariant
            whole == content@.len(),
            size == needle@.len(),
            last == whole - size,
            at <= last + 1,
            forall|before: int| 0 <= before < at ==> !text::occurs_at(content@, needle@, before),
        decreases last + 1 - at,
    {
        if *content.substring_char(at, at + size) == *needle {
            return Some(at);
        }
        if at == last {
            assert(!text::occurs(content@, needle@));
            return None;
        }
        at = at + 1;
    }
    None
}

/// The version of CUDA that stands behind the mark, up to the next space.
pub open spec fn version_after(content: Seq<char>, at: int) -> Option<Seq<char>> {
    filled(
        Some(
            text::leading_word(
                text::trimmed_start(content.skip(at + cuda_mark().len())),
            ),
        ),
    )
}

/// The version of CUDA that the driver announces: what stands behind the mark.
/// This is what the driver supports, not what a worker can use.
pub fn parse_cuda_version(output: &str) -> (version: Option<String>)
    ensures
        text::occurs(output@, cuda_mark()) ==> exists|at: int| #[trigger]
            first_place(output@, cuda_mark(), at) && text::opt(version) == version_after(
                output@,
                at,
            ),
        !text::occurs(output@, cuda_mark()) ==> version is None,
{
    match find_text(output, "CUDA Version:") {
        Some(at) => {
            let whole: usize = text::chars_of(output).len();
            let size: usize = text::chars_of("CUDA Version:").len();
            let tail = output.substring_char(at + size, whole);
            assert(tail@ =~= output@.skip(at + cuda_mark().len()));
            let word = text::take_word(text::trim_start(tail));
            let version = non_empty(Some(word));
            assert(first_place(output@, cuda_mark(), at as int));
            version
        },
        None => None,
    }
}

/// The bytes that a count of mebibytes makes, where they can be counted.
pub open spec fn mebibytes(field: Seq<char>) -> Option<u64> {
    match text::number_in(field) {
        Some(count) => if count * 1024 * 1024 <= u64::MAX {
            Some((count * 1024 * 1024) as u64)
        } else {
            None
        },
        None => None,
    }
}

/// The fields of a line between its commas, without the space around them.
pub open spec fn fields_of(line: Seq<char>) -> Seq<Seq<char>> {
    let parts = text::pieces(line, ',');
    Seq::new(parts.len(), |i: int| text::trimmed(parts[i]))
}

/// The memory that is free, where both the whole and the used are known.
pub open spec fn left_of(total: Option<u64>, used: Option<u64>) -> Option<u64> {
    match (total, used) {
        (Some(whole), Some(taken)) => Some(
            if taken >= whole {
                0
            } else {
                (whole - taken) as u64
            },
        ),
        _ => None,
    }
}

/// What a line of the driver's tool says of a card, but for its two readings.
pub open spec fn card_of(
    fields: Seq<Seq<char>>,
    runtime_version: Option<Seq<char>>,
    utilization: Option<u64>,
    warmth_bits: Option<u64>,
) -> GpuMetricsView {
    let total = mebibytes(fields[1]);
    let used = mebibytes(fields[2]);
    GpuMetricsView {
        source: ResourceSource::Host,
        manufacturer: Some("NVIDIA"@),
        model: filled(Some(fields[0])),
        backend: Some("CUDA"@),
        vram_total_bytes: total,
        vram_used_bytes: used,
        vram_available_bytes: left_of(total, used),
        utilization_percent: match utilization {
            Some(bits) => as_real(share(bits)),
            None => None,
        },
        temperature_celsius: match warmth_bits {
            Some(bits) => as_real(warmth(bits)),
            None => None,
        },
        driver_version: filled(Some(fields[5])),
        runtime_version: filled(runtime_version),
    }
}

fn bytes_of(field: &str) -> (bytes: Option<u64>)
    ensures
        bytes == mebibytes(field@),
{
    match text::parse_u64(field) {
        Some(count) => count.checked_mul(1024 * 1024),
        None => None,
    }
}

/// Reads a line of the driver's tool: name, whole and used memory in mebibytes,
/// utilization, temperature, driver and index. What is no number, or one whose
/// bytes cannot be counted, is not known.
/// `number` reads a decimal number as the bit pattern of a double.
pub fn parse_nvidia_csv_line<N: Fn(&str) -> Option<u64>>(
    line: &str,
    runtime_version: Option<&str>,
    number: N,
) -> (card: Option<GpuMetrics>)
    requires
        forall|field: &str| #[trigger] number.requires((field,)),
    ensures
        fields_of(line@).len() < 7 <==> card is None,
        card matches Some(found) ==> exists|
            utilization: Option<u64>,
            warmth_bits: Option<u64>,
            third: &str,
            fourth: &str,
        |
            {
                &&& third@ == fields_of(line@)[3] && fourth@ == fields_of(line@)[4]
                &&& #[trigger] number.ensures((third,), utilization)
                &&& #[trigger] number.ensures((fourth,), warmth_bits)
                &&& found@ == card_of(
                    fields_of(line@),
                    text::opt_str(runtime_version),
                    utilization,
                    warmth_bits,
                )
            },
{
    let parts = text::split(line, ',');
    let ghost fields = fields_of(line@);
    if parts.len() < 7 {
        return None;
    }
    assert(forall|i: int|
        0 <= i < 7 ==> text::trimmed((#[trigger] parts@[i])@) == fields[i]);
    let name = text::trim(parts[0]);
    let total = bytes_of(text::trim(parts[1]));
    let used = bytes_of(text::trim(parts[2]));
    let third = text::trim(parts[3]);
    let fourth = text::trim(parts[4]);
    let utilization = number(third);
    let warmth_bits = number(fourth);
    let available = match (total, used) {
        (Some(whole), Some(taken)) => if taken >= whole {
            Some(0)
        } else {
            Some(whole - taken)
        },
        _ => None,
    };
    let card = GpuMetrics {
        source: ResourceSource::Host,
        manufacturer: Some("NVIDIA".to_owned()),
        model: non_empty(Some(name)),
        backend: Some("CUDA".to_owned()),
        vram_total_bytes: total,
        vram_used_bytes: used,
        vram_available_bytes: available,
        utilization_percent: match utilization {
            Some(bits) => to_real(percentage(bits)),
            None => None,
        },
        temperature_celsius: match warmth_bits {
            Some(bits) => to_real(temperature(bits)),
            None => None,
        },
        driver_version: non_empty(Some(text::trim(parts[5]))),
        runtime_version: non_empty(runtime_version),
    };
    assert(number.ensures((third,), utilization) && number.ensures((fourth,), warmth_bits));
    Some(card)
}

/// Whether a machine is one of Apple with its own processor.
pub open spec fn apple(architecture: Option<Seq<char>>, cpu_model: Option<Seq<char>>) -> bool {
    (architecture == Some("arm64"@) || architecture == Some("aarch64"@)) && cpu_model is Some
        && text::occurs(text::lower(cpu_model->0), "apple"@)
}

/// The graphics of a machine of Apple: its memory is shared, so none is its own.
pub open spec fn apple_card(cpu_model: Option<Seq<char>>) -> GpuMetricsView {
    GpuMetricsView {
        source: ResourceSource::Host,
        manufacturer: Some("Apple"@),
        model: cpu_model,
        backend: Some("Metal"@),
        vram_total_bytes: None,
        vram_used_bytes: None,
        vram_available_bytes: None,
        utilization_percent: None,
        temperature_celsius: None,
        driver_version: None,
        runtime_version: None,
    }
}

/// The graphics of a machine of Apple; none on any other. `macos` is whether the
/// system is that of Apple.
pub fn apple_gpu(macos: bool, architecture: &Option<String>, cpu_model: &Option<String>) -> (card: Option<
    GpuMetrics,
>)
    ensures
        match card {
            Some(found) => macos && apple(text::opt(*architecture), text::opt(*cpu_model))
                && found@ == apple_card(text::opt(*cpu_model)),
            None => !(macos && apple(text::opt(*architecture), text::opt(*cpu_model))),
        },
{
    if !macos {
        return None;
    }
    if !text::opt_is(architecture, "arm64") && !text::opt_is(architecture, "aarch64") {
        return None;
    }
    match cpu_model {
        Some(model) => {
            if !text::contains(text::ascii_lowercase(model.as_str()).as_str(), "apple") {
                return None;
            }
        },
        None => {
            return None;
        },
    }
    Some(
        GpuMetrics {
            source: ResourceSource::Host,
            manufacturer: Some("Apple".to_owned()),
            model: text::copy_opt(cpu_model),
            backend: Some("Metal".to_owned()),
            vram_total_bytes: None,
            vram_used_bytes: None,
            vram_available_bytes: None,
            utilization_percent: None,
            temperature_celsius: None,
            driver_version: None,
            runtime_version: None,
        },
    )
}

// ---------------------------------------------------------------------------
// Disks
// ---------------------------------------------------------------------------

/// A disk as the system lists it.
#[derive(Debug)]
pub struct DiskReading {
    pub name: String,
    pub mount_point: String,
    pub filesystem: String,
    pub kind: String,
    pub total: u64,
    pub available: u64,
}

/// The space of a disk that is free, never more than it has.
pub open spec fn free_space(disk: DiskReading) -> u64 {
    if disk.available < disk.total {
        disk.available
    } else {
        disk.total
    }
}

/// What is said of a disk.
pub open spec fn volume_of(disk: DiskReading) -> VolumeView {
    VolumeView {
        name: filled(Some(disk.name@)),
        mount_point: disk.mount_point@,
        filesystem: filled(Some(disk.filesystem@)),
        storage_type: filled(Some(disk.kind@)),
        total_bytes: Some(disk.total),
        used_bytes: Some((disk.total - free_space(disk)) as u64),
        available_bytes: Some(free_space(disk)),
    }
}

/// The volumes of disks; a disk without space is none.
pub open spec fn volumes_of(disks: Seq<DiskReading>) -> Seq<VolumeView>
    decreases disks.len(),
{
    if disks.len() == 0 {
        Seq::empty()
    } else {
        let before = volumes_of(disks.drop_last());
        if disks.last().total == 0 {
            before
        } else {
            before.push(volume_of(disks.last()))
        }
    }
}

/// Whether two disks are mounts of one pool: they have one name and one size.
pub open spec fn same_pool(left: DiskReading, right: DiskReading) -> bool {
    left.name@ == right.name@ && left.total == right.total
}

/// Whether a disk is the first of its pool.
pub open spec fn opens_pool(disks: Seq<DiskReading>, disk: DiskReading) -> bool {
    disk.total > 0 && forall|i: int| 0 <= i < disks.len() ==> !same_pool(#[trigger] disks[i], disk)
}

/// A sum, as far as it can be counted.
pub open spec fn counted(left: u64, right: u64) -> u64 {
    if left + right > u64::MAX {
        u64::MAX
    } else {
        (left + right) as u64
    }
}

fn count_up(left: u64, right: u64) -> (sum: u64)
    ensures
        sum == counted(left, right),
{
    match left.checked_add(right) {
        Some(sum) => sum,
        None => u64::MAX,
    }
}

/// The whole and the free space of all pools, each counted once.
pub open spec fn pool_sums(disks: Seq<DiskReading>) -> (u64, u64)
    decreases disks.len(),
{
    if disks.len() == 0 {
        (0, 0)
    } else {
        let before = pool_sums(disks.drop_last());
        if opens_pool(disks.drop_last(), disks.last()) {
            (
                counted(before.0, disks.last().total),
                counted(before.1, free_space(disks.last())),
            )
        } else {
            before
        }
    }
}

/// What is said of all disks; nothing of their space where there is none.
pub open spec fn is_storage(storage: StorageMetrics, disks: Seq<DiskReading>) -> bool {
    let (total, available) = pool_sums(disks);
    let volumes = volumes_of(disks);
    let any = volumes.len() > 0;
    &&& storage.source == ResourceSource::Host
    &&& Seq::new(storage.volumes@.len(), |i: int| storage.volumes@[i]@) == volumes
    &&& storage.total_bytes == (if any {
        Some(total)
    } else {
        None
    })
    &&& storage.available_bytes == (if any {
        Some(available)
    } else {
        None
    })
    &&& storage.used_bytes == (if any {
        left_of(Some(total), Some(available))
    } else {
        None
    })
}

fn seen_pool(disks: &Vec<DiskReading>, at: usize) -> (seen: bool)
    requires
        at < disks@.len(),
    ensures
        seen == exists|i: int|
            0 <= i < at && same_pool(#[trigger] disks@[i], disks@[at as int]),
{
    for i in 0..at
        invariant
            at < disks@.len(),
            forall|j: int| 0 <= j < i ==> !same_pool(#[trigger] disks@[j], disks@[at as int]),
    {
        if *disks[i].name.as_str() == *disks[at].name.as_str() && disks[i].total
            == disks[at].total {
            return true;
        }
    }
    false
}

/// Puts together what is said of all disks. Mounts that share a pool are all
/// listed, and their pool is counted once.
pub fn collect_storage(disks: &Vec<DiskReading>) -> (storage: StorageMetrics)
    ensures
        is_storage(storage, disks@),
{
    let mut volumes: Vec<StorageVolume> = Vec::new();
    let mut total: u64 = 0;
    let mut available: u64 = 0;
    assert(disks@.take(0) =~= Seq::<DiskReading>::empty());
    for i in 0..disks.len()
        invariant
            Seq::new(volumes@.len(), |j: int| volumes@[j]@) =~= volumes_of(disks@.take(i as int)),
            (total, available) == pool_sums(disks@.take(i as int)),
    {
        let ghost before = disks@.take(i as int);
        assert(disks@.take(i + 1).drop_last() =~= before);
        assert(disks@.take(i + 1).last() == disks@[i as int]);
        let disk = &disks[i];
        if disk.total > 0 {
            let free: u64 = if disk.available < disk.total {
                disk.available
            } else {
                disk.total
            };
            let ghost listed = volumes@;
            volumes.push(
                StorageVolume {
                    name: non_empty(Some(disk.name.as_str())),
                    mount_point: disk.mount_point.clone(),
                    filesystem: non_empty(Some(disk.filesystem.as_str())),
                    storage_type: non_empty(Some(disk.kind.as_str())),
                    total_bytes: Some(disk.total),
                    used_bytes: Some(disk.total - free),
                    available_bytes: Some(free),
                },
            );
            assert(Seq::new(volumes@.len(), |j: int| volumes@[j]@) =~= Seq::new(
                listed.len(),
                |j: int| listed[j]@,
            ).push(volume_of(disks@[i as int])));
            let seen = seen_pool(disks, i);
            assert(seen == !opens_pool(before, disks@[i as int])) by {
                if seen {
                    let j = choose|j: int|
                        0 <= j < i && same_pool(#[trigger] disks@[j], disks@[i as int]);
                    assert(before[j] == disks@[j]);
                } else {
                    assert forall|j: int| 0 <= j < before.len() implies !same_pool(
                        #[trigger] before[j],
                        disks@[i as int],
                    ) by {
                        assert(before[j] == disks@[j]);
                    }
                }
            }
            if !seen {
                total = count_up(total, disk.total);
                available = count_up(available, free);
            }
        }
    }
    assert(disks@.take(disks@.len() as int) =~= disks@);
    assert(volumes@.len() == volumes_of(disks@).len());
    let any = volumes.len() > 0;
    let used: u64 = if available >= total {
        0
    } else {
        total - available
    };
    StorageMetrics {
        source: ResourceSource::Host,
        total_bytes: if any {
            Some(total)
        } else {
            None
        },
        used_bytes: if any {
            Some(used)
        } else {
            None
        },
        available_bytes: if any {
            Some(available)
        } else {
            None
        },
        volumes,
    }
}

// ---------------------------------------------------------------------------
// The whole machine
// ---------------------------------------------------------------------------

/// What was read of a machine.
#[derive(Debug)]
pub struct MachineReadings {
    pub agent_version: String,
    /// Whether the system is that of Apple.
    pub macos: bool,
    pub os: Option<String>,
    pub os_version: Option<String>,
    pub kernel: Option<String>,
    pub hostname: Option<String>,
    pub architecture: String,
    pub uptime_seconds: u64,
    /// The name that the tool of Apple's system gives the processor.
    pub brand_string: Option<String>,
    /// The brands and frequencies of the logical processors.
    pub brands: Vec<String>,
    pub frequencies: Vec<u64>,
    pub physical_cores: Option<usize>,
    /// The bit pattern of the utilization of the processor.
    pub utilization: u64,
    pub sensors: Vec<Sensor>,
    pub total_ram: u64,
    pub available_ram: u64,
    pub disks: Vec<DiskReading>,
}

/// The sum of numbers.
pub open spec fn sum_of(numbers: Seq<u64>) -> int
    decreases numbers.len(),
{
    if numbers.len() == 0 {
        0
    } else {
        sum_of(numbers.drop_last()) + numbers.last()
    }
}

proof fn lemma_sum(numbers: Seq<u64>, n: int)
    requires
        0 <= n <= numbers.len(),
    ensures
        0 <= sum_of(numbers.take(n)) <= sum_of(numbers),
    decreases numbers.len(),
{
    if n == numbers.len() {
        assert(numbers.take(n) =~= numbers);
    }
    lemma_sum_is_positive(numbers.take(n));
    if n < numbers.len() {
        lemma_sum(numbers.drop_last(), n);
        assert(numbers.drop_last().take(n) =~= numbers.take(n));
    }
}

proof fn lemma_sum_is_positive(numbers: Seq<u64>)
    ensures
        0 <= sum_of(numbers),
    decreases numbers.len(),
{
    if numbers.len() > 0 {
        lemma_sum_is_positive(numbers.drop_last());
    }
}

/// The mean frequency of processors, in whole megahertz; not known where all are
/// zero.
pub open spec fn mean_frequency(frequencies: Seq<u64>) -> Option<u64> {
    if frequencies.len() == 0 || sum_of(frequencies) == 0 {
        None
    } else {
        Some((sum_of(frequencies) / frequencies.len() as int) as u64)
    }
}

/// The mean of frequencies.
pub fn average_frequency(frequencies: &Vec<u64>) -> (mean: Option<u64>)
    requires
        sum_of(frequencies@) <= u64::MAX,
    ensures
        mean == mean_frequency(frequencies@),
{
    let mut sum: u64 = 0;
    assert(frequencies@.take(0) =~= Seq::<u64>::empty());
    for i in 0..frequencies.len()
        invariant
            sum_of(frequencies@) <= u64::MAX,
            sum == sum_of(frequencies@.take(i as int)),
    {
        assert(frequencies@.take(i + 1).drop_last() =~= frequencies@.take(i as int));
        proof {
            lemma_sum(frequencies@, i + 1);
        }
        sum = sum + frequencies[i];
    }
    assert(frequencies@.take(frequencies@.len() as int) =~= frequencies@);
    if frequencies.len() == 0 || sum == 0 {
        None
    } else {
        let count: u64 = frequencies.len() as u64;
        assert(sum / count <= sum) by (nonlinear_arith)
            requires
                count > 0,
        ;
        Some(sum / count)
    }
}

/// The name of the processor: that of Apple's tool on its system, else the brand
/// of the first logical processor.
pub open spec fn processor_name(readings: MachineReadings) -> Option<Seq<char>> {
    let brand = if readings.brands@.len() > 0 {
        filled(Some(readings.brands@[0]@))
    } else {
        None
    };
    if readings.macos && readings.brand_string is Some {
        Some(readings.brand_string->0@)
    } else {
        brand
    }
}

fn processor(readings: &MachineReadings) -> (name: Option<String>)
    ensures
        text::opt(name) == processor_name(*readings),
{
    if readings.macos && readings.brand_string.is_some() {
        return text::copy_opt(&readings.brand_string);
    }
    if readings.brands.len() > 0 {
        non_empty(Some(readings.brands[0].as_str()))
    } else {
        None
    }
}

/// The memory: nothing is known of it where the whole reads zero.
pub open spec fn ram_of(readings: MachineReadings) -> RamMetricsView {
    let known = readings.total_ram > 0;
    let available = if readings.available_ram < readings.total_ram {
        readings.available_ram
    } else {
        readings.total_ram
    };
    let name = processor_name(readings);
    RamMetricsView {
        source: ResourceSource::Host,
        total_bytes: if known {
            Some(readings.total_ram)
        } else {
            None
        },
        used_bytes: if known {
            Some((readings.total_ram - available) as u64)
        } else {
            None
        },
        available_bytes: if known {
            Some(available)
        } else {
            None
        },
        memory_type: if readings.macos && name is Some && text::occurs(
            text::lower(name->0),
            "apple"@,
        ) {
            Some("Mémoire unifiée"@)
        } else {
            None
        },
    }
}

/// The processor.
pub open spec fn cpu_of(readings: MachineReadings) -> CpuMetricsView {
    CpuMetricsView {
        source: ResourceSource::Host,
        model: processor_name(readings),
        physical_cores: readings.physical_cores,
        logical_cpus: if readings.frequencies@.len() == 0 {
            None
        } else {
            Some(readings.frequencies@.len() as usize)
        },
        frequency_mhz: mean_frequency(readings.frequencies@),
        utilization_percent: as_real(share(readings.utilization)),
        temperature_celsius: as_real(warmest(readings.sensors@)),
    }
}

/// The operating system.
pub open spec fn system_of(readings: MachineReadings, now: u64) -> SystemMetricsView {
    SystemMetricsView {
        source: ResourceSource::Host,
        os: if readings.macos {
            Some("macOS"@)
        } else {
            filled(text::opt(readings.os))
        },
        os_version: filled(text::opt(readings.os_version)),
        kernel: filled(text::opt(readings.kernel)),
        hostname: filled(text::opt(readings.hostname)),
        architecture: filled(Some(readings.architecture@)),
        uptime_seconds: Some(readings.uptime_seconds),
        measured_at_unix: now,
    }
}

/// Puts what was read of a machine together. `cards` are those of NVIDIA; where
/// there are none the graphics of a machine of Apple take their place.
pub fn collect_snapshot(readings: &MachineReadings, cards: Vec<GpuMetrics>, now: u64) -> (snapshot:
    HostSnapshot)
    requires
        sum_of(readings.frequencies@) <= u64::MAX,
    ensures
        snapshot.source == ResourceSource::Host,
        snapshot.agent_version@ == readings.agent_version@,
        snapshot.system@ == system_of(*readings, now),
        snapshot.cpu@ == cpu_of(*readings),
        snapshot.ram@ == ram_of(*readings),
        is_storage(snapshot.storage, readings.disks@),
        cards@.len() > 0 ==> snapshot.gpus@ == cards@,
        cards@.len() == 0 ==> if readings.macos && apple(
            filled(Some(readings.architecture@)),
            processor_name(*readings),
        ) {
            snapshot.gpus@.len() == 1 && snapshot.gpus@[0]@ == apple_card(
                processor_name(*readings),
            )
        } else {
            snapshot.gpus@.len() == 0
        },
{
    let architecture = non_empty(Some(readings.architecture.as_str()));
    let name = processor(readings);
    let mut gpus = cards;
    if gpus.len() == 0 {
        match apple_gpu(readings.macos, &architecture, &name) {
            Some(card) => gpus.push(card),
            None => {},
        }
    }
    let unified = readings.macos && match &name {
        Some(model) => text::contains(text::ascii_lowercase(model.as_str()).as_str(), "apple"),
        None => false,
    };
    let available: u64 = if readings.available_ram < readings.total_ram {
        readings.available_ram
    } else {
        readings.total_ram
    };
    let known = readings.total_ram > 0;
    HostSnapshot {
        source: ResourceSource::Host,
        agent_version: readings.agent_version.clone(),
        system: SystemMetrics {
            source: ResourceSource::Host,
            os: if readings.macos {
                Some("macOS".to_owned())
            } else {
                non_empty(text::borrow(&readings.os))
            },
            os_version: non_empty(text::borrow(&readings.os_version)),
            kernel: non_empty(text::borrow(&readings.kernel)),
            hostname: non_empty(text::borrow(&readings.hostname)),
            architecture,
            uptime_seconds: Some(readings.uptime_seconds),
            measured_at_unix: now,
        },
        cpu: CpuMetrics {
            source: ResourceSource::Host,
            model: name,
            physical_cores: readings.physical_cores,
            logical_cpus: if readings.frequencies.len() == 0 {
                None
            } else {
                Some(readings.frequencies.len())
            },
            frequency_mhz: average_frequency(&readings.frequencies),
            utilization_percent: to_real(percentage(readings.utilization)),
            temperature_celsius: to_real(cpu_temperature(&readings.sensors)),
        },
        ram: RamMetrics {
            source: ResourceSource::Host,
            total_bytes: if known {
                Some(readings.total_ram)
            } else {
                None
            },
            used_bytes: if known {
                Some(readings.total_ram - available)
            } else {
                None
            },
            available_bytes: if known {
                Some(available)
            } else {
                None
            },
            memory_type: if unified {
                Some("Mémoire unifiée".to_owned())
            } else {
                None
            },
        },
        gpus,
        storage: collect_storage(&readings.disks),
    }
}

/// Whether a caller may read the machine: without a token everyone may, with one
/// only who sends it as a bearer or in the header of the service.
pub fn authorize(
    token: &Option<String>,
    authorization: Option<&str>,
    internal: Option<&str>,
) -> (allowed: bool)
    ensures
        allowed == match token {
            None => true,
            Some(expected) => text::opt_str(internal) == Some(expected@) || (
            text::opt_str(authorization) is Some && text::opt_str(authorization)->0 == "Bearer "@
                + expected@),
        },
{
    match token {
        None => true,
        Some(expected) => {
            let by_header = match internal {
                Some(given) => *given == *expected.as_str(),
                None => false,
            };
            let by_bearer = match authorization {
                Some(given) => *given == *text::concat("Bearer ", expected.as_str()).as_str(),
                None => false,
            };
            by_header || by_bearer
        },
    }
}

// ---------------------------------------------------------------------------
// Laws
// ---------------------------------------------------------------------------

/// The free space of a volume never exceeds its whole, and with the used makes
/// it up.
pub proof fn law_volumes_add_up(disk: DiskReading)
    ensures
        volume_of(disk).used_bytes->0 + volume_of(disk).available_bytes->0
            == volume_of(disk).total_bytes->0,
{
}

/// Another mount of a pool that was counted changes no sum.
pub proof fn law_pools_count_once(disks: Seq<DiskReading>, mount: DiskReading, i: int)
    requires
        0 <= i < disks.len(),
        same_pool(disks[i], mount),
    ensures
        pool_sums(disks.push(mount)) == pool_sums(disks),
{
    assert(disks.push(mount).drop_last() =~= disks);
}

/// A reading that is no number is never given as one: shares lie between 0 and
/// 100, and temperatures between 0 and 200, by their bit patterns.
pub proof fn law_readings_are_plausible(bits: u64)
    ensures
        share(bits) matches Some(value) ==> value <= HUNDRED || value == SIGN,
        warmth(bits) matches Some(value) ==> 0 < value < TWO_HUNDRED,
        warmth(0) is None,
{
}

/// A field that says nothing is left out, and one that says something is told
/// without the space around it.
pub proof fn law_empty_fields_are_left_out(value: Option<Seq<char>>)
    ensures
        value is None ==> filled(value) is None,
        value matches Some(found) ==> text::trimmed(found).len() == 0 ==> filled(value) is None,
        value matches Some(found) ==> text::trimmed(found).len() > 0 ==> filled(value) == Some(
            text::trimmed(found),
        ),
{
}

/// A share is told as it was read where it lies between zero and a hundred, else as
/// the nearer of the two, and not at all where it is no number; a temperature is
/// told where it lies above zero and below two hundred.
pub proof fn law_readings_are_told_as_read(bits: u64)
    ensures
        bits <= 0x4059_0000_0000_0000 ==> share(bits) == Some(bits),
        0x4059_0000_0000_0000 < bits < 0x7ff0_0000_0000_0000 ==> share(bits) == Some(
            0x4059_0000_0000_0000u64,
        ),
        0x7ff0_0000_0000_0000 <= bits < 0x8000_0000_0000_0000 ==> share(bits) is None,
        0x8000_0000_0000_0000 < bits < 0xfff0_0000_0000_0000 ==> share(bits) == Some(0u64),
        bits >= 0xfff0_0000_0000_0000 ==> share(bits) is None,
        0 < bits < 0x4069_0000_0000_0000 ==> warmth(bits) == Some(bits),
        bits >= 0x4069_0000_0000_0000 ==> warmth(bits) is None,
{
}

/// The temperature of the processor is the highest that one of its sensors reads,
/// and no other sensor counts.
pub proof fn law_the_warmest_sensor_counts(sensors: Seq<Sensor>, i: int)
    requires
        0 <= i < sensors.len(),
    ensures
        warmest(sensors) matches Some(highest) ==> {
            &&& processor_warmth(sensors[i]) matches Some(read) ==> read <= highest
            &&& exists|k: int|
                0 <= k < sensors.len() && processor_warmth(#[trigger] sensors[k]) == Some(highest)
        },
        warmest(sensors) is None ==> processor_warmth(sensors[i]) is None,
        processor_warmth(sensors[i]) matches Some(read) ==> sensors[i].temperature == Some(read)
            && 0 < read < 0x4069_0000_0000_0000,
        processor_warmth(sensors[i]) is Some ==> {
            let name = text::lower(sensors[i].label@);
            text::occurs(name, "cpu"@) || text::occurs(name, "package"@) || text::occurs(
                name,
                "tctl"@,
            ) || text::occurs(name, "soc"@)
        },
    decreases sensors.len(),
{
    let rest = sensors.drop_last();
    assert(sensors[sensors.len() - 1] == sensors.last());
    if i < rest.len() {
        law_the_warmest_sensor_counts(rest, i);
        assert(rest[i] == sensors[i]);
    } else if rest.len() > 0 {
        law_the_warmest_sensor_counts(rest, 0);
    }
    if rest.len() > 0 && warmest(rest) is Some {
        let k = choose|k: int|
            0 <= k < rest.len() && processor_warmth(#[trigger] rest[k]) == Some(warmest(rest)->0);
        assert(sensors[k] == rest[k]);
    }
}

/// A card says what its line says: its name, its memory in bytes, what of it is
/// left, and its driver.
pub proof fn law_cards_are_read(
    fields: Seq<Seq<char>>,
    runtime_version: Option<Seq<char>>,
    utilization: Option<u64>,
    warmth_bits: Option<u64>,
)
    ensures
        ({
            let card = card_of(fields, runtime_version, utilization, warmth_bits);
            &&& card.manufacturer == Some("NVIDIA"@) && card.backend == Some("CUDA"@)
                && card.source == ResourceSource::Host
            &&& text::trimmed(fields[0]).len() > 0 ==> card.model == Some(text::trimmed(fields[0]))
            &&& text::trimmed(fields[5]).len() > 0 ==> card.driver_version == Some(
                text::trimmed(fields[5]),
            )
            &&& text::number_in(fields[1]) matches Some(count) ==> (count * 1048576 <= u64::MAX
                ==> card.vram_total_bytes == Some((count * 1048576) as u64))
            &&& text::number_in(fields[2]) matches Some(count) ==> (count * 1048576 <= u64::MAX
                ==> card.vram_used_bytes == Some((count * 1048576) as u64))
            &&& card.vram_total_bytes is Some && card.vram_used_bytes is Some && card.vram_used_bytes->0
                <= card.vram_total_bytes->0 ==> card.vram_available_bytes is Some
                && card.vram_available_bytes->0 + card.vram_used_bytes->0
                == card.vram_total_bytes->0
            &&& text::number_in(fields[1]) is None ==> card.vram_total_bytes is None
                && card.vram_available_bytes is None
            &&& utilization matches Some(bits) ==> (bits <= 0x4059_0000_0000_0000
                ==> card.utilization_percent == Some(Real::Bits(bits)))
            &&& warmth_bits matches Some(bits) ==> (0 < bits < 0x4069_0000_0000_0000
                ==> card.temperature_celsius == Some(Real::Bits(bits)))
        }),
{
}

/// A disk is told with its size and what of it is free, which is never more than
/// the size; one without a size is left out.
pub proof fn law_disks_are_told(disks: Seq<DiskReading>, next: DiskReading)
    ensures
        ({
            let volume = volume_of(next);
            &&& volume.mount_point == next.mount_point@ && volume.total_bytes == Some(next.total)
            &&& next.available <= next.total ==> volume.available_bytes == Some(next.available)
            &&& next.available > next.total ==> volume.available_bytes == Some(next.total)
        }),
        next.total == 0 ==> volumes_of(disks.push(next)) == volumes_of(disks),
        next.total > 0 ==> volumes_of(disks.push(next)) == volumes_of(disks).push(volume_of(next)),
        volumes_of(Seq::empty()).len() == 0 && pool_sums(Seq::empty()) == (0u64, 0u64),
        next.total > 0 && (forall|i: int|
            0 <= i < disks.len() ==> (#[trigger] disks[i]).name@ != next.name@) && pool_sums(
            disks,
        ).0 + next.total <= u64::MAX ==> pool_sums(disks.push(next)).0 == pool_sums(disks).0
            + next.total,
{
    assert(disks.push(next).drop_last() =~= disks);
}

/// The storage is told as the sum over what is there, and what is used of it is
/// what is not free.
pub proof fn law_storage_is_the_sum(storage: StorageMetrics, disks: Seq<DiskReading>)
    requires
        is_storage(storage, disks),
    ensures
        volumes_of(disks).len() == 0 ==> storage.total_bytes is None && storage.available_bytes
            is None && storage.used_bytes is None,
        volumes_of(disks).len() > 0 ==> storage.total_bytes == Some(pool_sums(disks).0)
            && storage.available_bytes == Some(pool_sums(disks).1) && storage.used_bytes is Some,
        volumes_of(disks).len() > 0 && pool_sums(disks).1 <= pool_sums(disks).0
            ==> storage.used_bytes->0 + storage.available_bytes->0 == storage.total_bytes->0,
        storage.volumes@.len() == volumes_of(disks).len(),
        storage.source == ResourceSource::Host,
{
}

/// The frequency of the processor is the mean of those that were read, and not told
/// where none was.
pub proof fn law_frequencies_are_averaged(numbers: Seq<u64>, number: u64)
    ensures
        sum_of(numbers.push(number)) == sum_of(numbers) + number,
        sum_of(Seq::empty()) == 0,
        numbers.len() == 0 ==> mean_frequency(numbers) is None,
        0 < sum_of(numbers) <= u64::MAX ==> (mean_frequency(numbers) matches Some(mean) && mean
            * numbers.len() <= sum_of(numbers) < (mean + 1) * numbers.len()),
{
    assert(numbers.push(number).drop_last() =~= numbers);
    let sum = sum_of(numbers);
    let count = numbers.len() as int;
    if 0 < sum <= u64::MAX {
        assert(count > 0);
        let mean = sum / count;
        assert(mean * count <= sum < (mean + 1) * count && 0 <= mean <= sum) by (nonlinear_arith)
            requires
                sum > 0,
                count > 0,
                mean == sum / count,
        ;
    }
}

/// The memory of the machine is told where it is known: what of it is free is never
/// more than all of it, and the rest is used.
pub proof fn law_memory_adds_up(readings: MachineReadings)
    ensures
        ({
            let ram = ram_of(readings);
            &&& readings.total_ram == 0 ==> ram.total_bytes is None && ram.used_bytes is None
                && ram.available_bytes is None
            &&& readings.total_ram > 0 ==> ram.total_bytes == Some(readings.total_ram)
                && ram.used_bytes->0 + ram.available_bytes->0 == readings.total_ram
            &&& readings.total_ram > 0 && readings.available_ram <= readings.total_ram
                ==> ram.available_bytes == Some(readings.available_ram)
        }),
{
}

/// The processor and the system are told as they were read.
pub proof fn law_the_machine_is_told_as_read(readings: MachineReadings, now: u64)
    ensures
        ({
            let cpu = cpu_of(readings);
            let system = system_of(readings, now);
            &&& cpu.physical_cores == readings.physical_cores
            &&& readings.frequencies@.len() == 0 ==> cpu.logical_cpus is None
            &&& 0 < readings.frequencies@.len() <= usize::MAX ==> cpu.logical_cpus == Some(
                readings.frequencies@.len() as usize,
            )
            &&& readings.macos && readings.brand_string is Some ==> cpu.model == Some(
                readings.brand_string->0@,
            )
            &&& !readings.macos && readings.brands@.len() == 0 ==> cpu.model is None
            &&& readings.utilization <= 0x4059_0000_0000_0000 ==> cpu.utilization_percent == Some(
                Real::Bits(readings.utilization),
            )
            &&& readings.macos ==> system.os == Some("macOS"@)
            &&& system.uptime_seconds == Some(readings.uptime_seconds)
            &&& system.measured_at_unix == now
            &&& readings.hostname is Some && text::trimmed(readings.hostname->0@).len() > 0
                ==> system.hostname == Some(text::trimmed(readings.hostname->0@))
            &&& readings.kernel is Some && text::trimmed(readings.kernel->0@).len() > 0
                ==> system.kernel == Some(text::trimmed(readings.kernel->0@))
        }),
        ResourceSource::Host.name() == "host"@ && ResourceSource::Container.name() == "container"@
            && ResourceSource::Worker.name() == "worker"@,
{
}

/// The card of a machine of Apple is its processor's, where that is one of Apple's.
pub proof fn law_cards_of_apple_are_known(
    architecture: Option<Seq<char>>,
    cpu_model: Option<Seq<char>>,
)
    ensures
        apple(architecture, cpu_model) ==> cpu_model is Some && (architecture == Some("arm64"@)
            || architecture == Some("aarch64"@)),
        apple_card(cpu_model).model == cpu_model && apple_card(cpu_model).backend == Some(
            "Metal"@,
        ) && apple_card(cpu_model).manufacturer == Some("Apple"@) && apple_card(
            cpu_model,
        ).vram_total_bytes is None,
{
}

} // verus!
