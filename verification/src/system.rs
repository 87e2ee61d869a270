//! The profile of the machine that the service runs on.
use crate::host;
use crate::host::{DiskReading, Sensor};
use crate::text;
use vstd::prelude::*;
use vstd::string::*;

verus! {

/// A volume of the disks.
#[derive(Debug)]
pub struct StorageVolume {
    pub nom: String,
    pub point_montage: String,
    pub systeme_fichiers: String,
    pub type_stockage: String,
    pub total: u64,
    pub utilise: u64,
    pub disponible: u64,
}

/// A volume of the disks.
#[verifier::ext_equal]
pub struct VolumeView {
    pub nom: Seq<char>,
    pub point_montage: Seq<char>,
    pub systeme_fichiers: Seq<char>,
    pub type_stockage: Seq<char>,
    pub total: u64,
    pub utilise: u64,
    pub disponible: u64,
}

impl View for StorageVolume {
    type V = VolumeView;

    open spec fn view(&self) -> VolumeView {
        VolumeView {
            nom: self.nom@,
            point_montage: self.point_montage@,
            systeme_fichiers: self.systeme_fichiers@,
            type_stockage: self.type_stockage@,
            total: self.total,
            utilise: self.utilise,
            disponible: self.disponible,
        }
    }
}

/// The machine that the service runs on. Shares and temperatures are the bit
/// patterns of doubles.
#[derive(Debug)]
pub struct HardwareProfile {
    pub os: String,
    pub kernel: String,
    pub architecture: String,
    pub hostname: String,
    pub date_mesure_unix: u64,
    pub uptime_secondes: u64,
    pub backend_version: String,
    pub cpu: String,
    pub cpu_coeurs: usize,
    pub cpu_threads: usize,
    pub cpu_frequence_mhz: u64,
    pub cpu_utilisation: u64,
    pub cpu_temperature: Option<u64>,
    pub ram_total: u64,
    pub ram_disponible: u64,
    pub ram_type: Option<String>,
    pub nbrs_total_gpu: usize,
    pub name_carte: String,
    pub gpu_est_nvidia: bool,
    pub vram_total: u64,
    pub vram_utilisee: u64,
    pub vram_disponible: u64,
    pub gpu_utilisation: u64,
    pub gpu_temperature: Option<u64>,
    /// The free space, under its older name.
    pub taille_storage: u64,
    pub stockage_total: u64,
    pub stockage_disponible: u64,
    pub stockage_volumes: Vec<StorageVolume>,
    pub gpu_backend: String,
    pub cuda_disponible: bool,
    pub cuda_version: Option<String>,
    pub gpu_driver_version: Option<String>,
}

// ---------------------------------------------------------------------------
// Details of cards
// ---------------------------------------------------------------------------

/// What a list of pairs says.
pub open spec fn pairs(details: Seq<(String, String)>) -> Seq<(Seq<char>, Seq<char>)> {
    Seq::new(details.len(), |i: int| (details[i].0@, details[i].1@))
}

/// The value of a key in a list of pairs.
pub open spec fn detail(details: Seq<(Seq<char>, Seq<char>)>, key: Seq<char>) -> Option<Seq<char>>
    decreases details.len(),
{
    if details.len() == 0 {
        None
    } else if details[0].0 == key {
        Some(details[0].1)
    } else {
        detail(details.drop_first(), key)
    }
}

fn get<'a>(details: &'a Vec<(String, String)>, key: &str) -> (value: Option<&'a str>)
    ensures
        text::opt_str(value) == detail(pairs(details@), key@),
{
    let ghost all = pairs(details@);
    assert(all.skip(0) =~= all);
    for i in 0..details.len()
        invariant
            all == pairs(details@),
            detail(all, key@) == detail(all.skip(i as int), key@),
    {
        assert(all.skip(i as int)[0] == all[i as int]);
        assert(all.skip(i as int).drop_first() =~= all.skip(i + 1));
        if *details[i].0.as_str() == *key {
            return Some(details[i].1.as_str());
        }
    }
    assert(all.skip(all.len() as int).len() == 0);
    None
}

/// A detail that says something: not blank, and no zero version.
pub open spec fn told(value: Option<Seq<char>>) -> Option<Seq<char>> {
    match value {
        Some(found) => {
            let trimmed = text::trimmed(found);
            if trimmed.len() == 0 || trimmed == "0.0"@ {
                None
            } else {
                Some(trimmed)
            }
        },
        None => None,
    }
}

/// The first of some details that says something.
pub open spec fn first_told(details: Seq<(Seq<char>, Seq<char>)>, keys: Seq<Seq<char>>) -> Option<
    Seq<char>,
>
    decreases keys.len(),
{
    if keys.len() == 0 {
        None
    } else {
        match told(detail(details, keys[0])) {
            Some(value) => Some(value),
            None => first_told(details, keys.drop_first()),
        }
    }
}

/// What a list of keys says.
pub open spec fn keys_view(keys: Seq<&str>) -> Seq<Seq<char>> {
    Seq::new(keys.len(), |i: int| keys[i]@)
}

/// The first of some details of a card that says something.
pub fn detail_value(details: &Vec<(String, String)>, keys: &[&str]) -> (value: Option<String>)
    ensures
        text::opt(value) == first_told(pairs(details@), keys_view(keys@)),
{
    let ghost all = keys_view(keys@);
    assert(all.skip(0) =~= all);
    for i in 0..keys.len()
        invariant
            all == keys_view(keys@),
            first_told(pairs(details@), all) == first_told(pairs(details@), all.skip(i as int)),
    {
        assert(all.skip(i as int)[0] == all[i as int]);
        assert(all.skip(i as int).drop_first() =~= all.skip(i + 1));
        match get(details, keys[i]) {
            Some(found) => {
                let trimmed = text::trim(found);
                if text::chars_of(trimmed).len() > 0 && *trimmed != *"0.0" {
                    return Some(trimmed.to_owned());
                }
            },
            None => {},
        }
    }
    assert(all.skip(all.len() as int).len() == 0);
    None
}

/// Whether a card is one of NVIDIA, by its name, its library or its version of
/// CUDA.
pub open spec fn nvidia(name: Seq<char>, details: Seq<(Seq<char>, Seq<char>)>) -> bool {
    ||| text::occurs(text::lower(name), "nvidia"@)
    ||| detail(details, "lib_name"@) is Some && text::lower(detail(details, "lib_name"@)->0)
        == text::lower("cuda"@)
    ||| detail(details, "CUDA Version"@) is Some
    ||| detail(details, "cuda_version"@) is Some
}

/// Whether a card is one of NVIDIA.
pub fn is_nvidia_gpu(name: &str, details: &Vec<(String, String)>) -> (yes: bool)
    ensures
        yes == nvidia(name@, pairs(details@)),
{
    if text::contains(text::ascii_lowercase(name).as_str(), "nvidia") {
        return true;
    }
    match get(details, "lib_name") {
        Some(library) => if text::same_ignoring_ascii_case(library, "cuda") {
            return true;
        },
        None => {},
    }
    get(details, "CUDA Version").is_some() || get(details, "cuda_version").is_some()
}

// ---------------------------------------------------------------------------
// Readings
// ---------------------------------------------------------------------------

/// A share in percent, by its bit pattern: kept between 0 and 100, and zero where
/// it is no finite number.
pub open spec fn normal_share(bits: u64) -> u64 {
    match host::share(bits) {
        Some(value) => value,
        None => 0,
    }
}

/// A share in percent, by its bit pattern.
pub fn normalized_percentage(bits: u64) -> (value: u64)
    ensures
        value == normal_share(bits),
{
    match host::percentage(bits) {
        Some(value) => value,
        None => 0,
    }
}

/// A temperature, by its bit pattern.
pub fn normalized_temperature(bits: u64) -> (value: Option<u64>)
    ensures
        value == host::warmth(bits),
{
    host::temperature(bits)
}

/// The processor as the management tool reads it.
#[derive(Debug)]
pub struct CpuReading {
    pub model: String,
    pub total_cores: u32,
    pub total_threads: u32,
    pub base_frequency_mhz: u32,
    pub utilization: u64,
    pub temperature: Option<u64>,
    pub apple_silicon: bool,
}

/// A card as the management tool reads it.
#[derive(Debug)]
pub struct GpuReading {
    pub name: String,
    pub detail: Vec<(String, String)>,
    pub total_memory: u64,
    pub used_memory: u64,
    pub utilization: u64,
    pub temperature: u64,
}

/// What was read of the machine.
#[derive(Debug)]
pub struct PcReadings {
    pub os: Option<String>,
    pub kernel: Option<String>,
    pub architecture: String,
    pub hostname: Option<String>,
    pub uptime_seconds: u64,
    pub backend_version: String,
    /// The processor as the management tool reads it.
    pub cpu: Option<CpuReading>,
    /// The brands and frequencies of the logical processors.
    pub brands: Vec<String>,
    pub frequencies: Vec<u64>,
    pub physical_cores: Option<usize>,
    pub utilization: u64,
    pub sensors: Vec<Sensor>,
    pub ram_total: u64,
    pub ram_available: u64,
    pub gpus: Vec<GpuReading>,
    pub disks: Vec<DiskReading>,
}

/// A text, or the word for one that is not known.
pub open spec fn or_unknown(value: Option<Seq<char>>) -> Seq<char> {
    match value {
        Some(found) => found,
        None => "Inconnu"@,
    }
}

fn known_or_unknown(value: &Option<String>) -> (result: String)
    ensures
        result@ == or_unknown(text::opt(*value)),
{
    match value {
        Some(found) => found.clone(),
        None => "Inconnu".to_owned(),
    }
}

/// The name of the processor.
pub open spec fn cpu_name(readings: PcReadings) -> Seq<char> {
    let told = match readings.cpu {
        Some(cpu) => host::filled(Some(cpu.model@)),
        None => None,
    };
    let brand = if readings.brands@.len() > 0 {
        host::filled(Some(readings.brands@[0]@))
    } else {
        None
    };
    match told {
        Some(name) => name,
        None => match brand {
            Some(name) => name,
            None => "CPU inconnu"@,
        },
    }
}

fn name_cpu(readings: &PcReadings) -> (name: String)
    ensures
        name@ == cpu_name(*readings),
{
    match &readings.cpu {
        Some(cpu) => match host::non_empty(Some(cpu.model.as_str())) {
            Some(name) => {
                return name;
            },
            None => {},
        },
        None => {},
    }
    if readings.brands.len() > 0 {
        match host::non_empty(Some(readings.brands[0].as_str())) {
            Some(name) => {
                return name;
            },
            None => {},
        }
    }
    "CPU inconnu".to_owned()
}

/// The frequency of the processor: its base, where that is known, else the mean.
pub open spec fn cpu_frequency(readings: PcReadings) -> u64 {
    match readings.cpu {
        Some(cpu) if cpu.base_frequency_mhz > 0 => cpu.base_frequency_mhz as u64,
        _ => match host::mean_frequency(readings.frequencies@) {
            Some(mean) => mean,
            None => 0,
        },
    }
}

/// The temperature of the processor: that of the tool, else of the warmest sensor.
pub open spec fn cpu_warmth(readings: PcReadings) -> Option<u64> {
    let told = match readings.cpu {
        Some(CpuReading { temperature: Some(bits), .. }) => host::warmth(bits),
        _ => None,
    };
    if told is Some {
        told
    } else {
        host::warmest(readings.sensors@)
    }
}

// ---------------------------------------------------------------------------
// The card that is used
// ---------------------------------------------------------------------------

/// The first position of a card of NVIDIA.
pub open spec fn nvidia_at(gpus: Seq<GpuReading>) -> Option<int>
    decreases gpus.len(),
{
    if gpus.len() == 0 {
        None
    } else {
        match nvidia_at(gpus.drop_last()) {
            Some(at) => Some(at),
            None => if nvidia(gpus.last().name@, pairs(gpus.last().detail@)) {
                Some(gpus.len() - 1)
            } else {
                None
            },
        }
    }
}

/// The position of the card that is used: the first of NVIDIA, else the first.
pub open spec fn chosen_card(gpus: Seq<GpuReading>) -> Option<int> {
    match nvidia_at(gpus) {
        Some(at) => Some(at),
        None => if gpus.len() > 0 {
            Some(0)
        } else {
            None
        },
    }
}

proof fn lemma_nvidia_at(gpus: Seq<GpuReading>)
    ensures
        nvidia_at(gpus) matches Some(at) ==> 0 <= at < gpus.len() && nvidia(
            gpus[at].name@,
            pairs(gpus[at].detail@),
        ),
    decreases gpus.len(),
{
    if gpus.len() > 0 {
        lemma_nvidia_at(gpus.drop_last());
    }
}

fn choose_card(gpus: &Vec<GpuReading>) -> (at: Option<usize>)
    ensures
        match at {
            Some(place) => place < gpus@.len() && chosen_card(gpus@) == Some(place as int),
            None => chosen_card(gpus@) is None,
        },
{
    let mut found: Option<usize> = None;
    assert(gpus@.take(0) =~= Seq::<GpuReading>::empty());
    for i in 0..gpus.len()
        invariant
            match found {
                Some(place) => place < i && nvidia_at(gpus@.take(i as int)) == Some(place as int),
                None => nvidia_at(gpus@.take(i as int)) is None,
            },
    {
        assert(gpus@.take(i + 1).drop_last() =~= gpus@.take(i as int));
        assert(gpus@.take(i + 1).last() == gpus@[i as int]);
        if found.is_none() && is_nvidia_gpu(gpus[i].name.as_str(), &gpus[i].detail) {
            found = Some(i);
        }
    }
    assert(gpus@.take(gpus@.len() as int) =~= gpus@);
    match found {
        Some(place) => Some(place),
        None => if gpus.len() > 0 {
            Some(0)
        } else {
            None
        },
    }
}

/// The library by which a card is used.
pub open spec fn backend_of(gpu: GpuReading) -> Seq<char> {
    match first_told(pairs(gpu.detail@), seq!["lib_name"@]) {
        Some(name) => name,
        None => "GPU"@,
    }
}

/// The version of CUDA of a card of NVIDIA.
pub open spec fn cuda_of(gpu: GpuReading) -> Option<Seq<char>> {
    if nvidia(gpu.name@, pairs(gpu.detail@)) {
        first_told(
            pairs(gpu.detail@),
            seq!["CUDA Version"@, "cuda_version"@, "lib_version"@],
        )
    } else {
        None
    }
}

/// The driver of a card of NVIDIA.
pub open spec fn driver_of(gpu: GpuReading) -> Option<Seq<char>> {
    if nvidia(gpu.name@, pairs(gpu.detail@)) {
        first_told(pairs(gpu.detail@), seq!["Driver Version"@, "driver_version"@])
    } else {
        None
    }
}

/// What a profile says of the card that is used.
pub open spec fn card_part(profile: HardwareProfile, gpu: GpuReading) -> bool {
    let known = nvidia(gpu.name@, pairs(gpu.detail@));
    let used = if gpu.used_memory < gpu.total_memory {
        gpu.used_memory
    } else {
        gpu.total_memory
    };
    &&& profile.name_carte@ == gpu.name@
    &&& profile.gpu_est_nvidia == known
    &&& profile.vram_total == gpu.total_memory
    &&& profile.vram_utilisee == used
    &&& profile.vram_disponible == gpu.total_memory - used
    &&& profile.gpu_utilisation == normal_share(gpu.utilization)
    &&& profile.gpu_temperature == host::warmth(gpu.temperature)
    &&& profile.gpu_backend@ == backend_of(gpu)
    &&& text::opt(profile.cuda_version) == cuda_of(gpu)
    &&& text::opt(profile.gpu_driver_version) == driver_of(gpu)
    &&& profile.cuda_disponible == (known && (text::lower(backend_of(gpu)) == text::lower("cuda"@)
        || cuda_of(gpu) is Some))
}

/// What a profile says where there is no card.
pub open spec fn no_card_part(profile: HardwareProfile) -> bool {
    &&& profile.name_carte@ == "Aucun GPU"@
    &&& !profile.gpu_est_nvidia
    &&& profile.vram_total == 0
    &&& profile.vram_utilisee == 0
    &&& profile.vram_disponible == 0
    &&& profile.gpu_utilisation == 0
    &&& profile.gpu_temperature is None
    &&& profile.gpu_backend@ == "CPU"@
    &&& !profile.cuda_disponible
    &&& profile.cuda_version is None
    &&& profile.gpu_driver_version is None
}

// ---------------------------------------------------------------------------
// Disks
// ---------------------------------------------------------------------------

/// Whether two disks are mounts of one pool: they have one name, one size and one
/// free space.
pub open spec fn same_pool(left: DiskReading, right: DiskReading) -> bool {
    left.name@ == right.name@ && left.total == right.total && host::free_space(left)
        == host::free_space(right)
}

/// Whether a disk is listed: it has space, and no mount of its pool came before.
pub open spec fn opens_pool(disks: Seq<DiskReading>, disk: DiskReading) -> bool {
    disk.total > 0 && forall|i: int| 0 <= i < disks.len() ==> !same_pool(#[trigger] disks[i], disk)
}

/// What is said of a disk.
pub open spec fn volume_of(disk: DiskReading) -> VolumeView {
    VolumeView {
        nom: disk.name@,
        point_montage: disk.mount_point@,
        systeme_fichiers: disk.filesystem@,
        type_stockage: disk.kind@,
        total: disk.total,
        utilise: (disk.total - host::free_space(disk)) as u64,
        disponible: host::free_space(disk),
    }
}

/// The volumes that are listed.
pub open spec fn volumes_of(disks: Seq<DiskReading>) -> Seq<VolumeView>
    decreases disks.len(),
{
    if disks.len() == 0 {
        Seq::empty()
    } else {
        let before = volumes_of(disks.drop_last());
        if opens_pool(disks.drop_last(), disks.last()) {
            before.push(volume_of(disks.last()))
        } else {
            before
        }
    }
}

/// The whole and the free space of the volumes that are listed.
pub open spec fn volume_sums(volumes: Seq<VolumeView>) -> (u64, u64)
    decreases volumes.len(),
{
    if volumes.len() == 0 {
        (0, 0)
    } else {
        let before = volume_sums(volumes.drop_last());
        (
            host::counted(before.0, volumes.last().total),
            host::counted(before.1, volumes.last().disponible),
        )
    }
}

/// What a list of volumes says.
pub open spec fn listed(volumes: Seq<StorageVolume>) -> Seq<VolumeView> {
    Seq::new(volumes.len(), |i: int| volumes[i]@)
}

fn free_of(disk: &DiskReading) -> (free: u64)
    ensures
        free == host::free_space(*disk),
{
    if disk.available < disk.total {
        disk.available
    } else {
        disk.total
    }
}

fn seen_pool(disks: &Vec<DiskReading>, at: usize) -> (seen: bool)
    requires
        at < disks@.len(),
    ensures
        seen == exists|i: int|
            0 <= i < at && same_pool(#[trigger] disks@[i], disks@[at as int]),
{
    for i in 0..at
        invariant
            at < disks@.len(),
            forall|j: int| 0 <= j < i ==> !same_pool(#[trigger] disks@[j], disks@[at as int]),
    {
        if *disks[i].name.as_str() == *disks[at].name.as_str() && disks[i].total == disks[at].total
            && free_of(&disks[i]) == free_of(&disks[at]) {
            return true;
        }
    }
    false
}

fn list_volumes(disks: &Vec<DiskReading>) -> (result: (Vec<StorageVolume>, u64, u64))
    ensures
        listed(result.0@) == volumes_of(disks@),
        (result.1, result.2) == volume_sums(volumes_of(disks@)),
{
    let mut volumes: Vec<StorageVolume> = Vec::new();
    let mut total: u64 = 0;
    let mut available: u64 = 0;
    assert(disks@.take(0) =~= Seq::<DiskReading>::empty());
    for i in 0..disks.len()
        invariant
            listed(volumes@) =~= volumes_of(disks@.take(i as int)),
            (total, available) == volume_sums(volumes_of(disks@.take(i as int))),
    {
        let ghost before = disks@.take(i as int);
        assert(disks@.take(i + 1).drop_last() =~= before);
        assert(disks@.take(i + 1).last() == disks@[i as int]);
        let seen = seen_pool(disks, i);
        assert(!seen == forall|j: int|
            0 <= j < before.len() ==> !same_pool(#[trigger] before[j], disks@[i as int])) by {
            if seen {
                let j = choose|j: int|
                    0 <= j < i && same_pool(#[trigger] disks@[j], disks@[i as int]);
                assert(before[j] == disks@[j]);
            } else {
                assert forall|j: int| 0 <= j < before.len() implies !same_pool(
                    #[trigger] before[j],
                    disks@[i as int],
                ) by {
                    assert(before[j] == disks@[j]);
                }
            }
        }
        let disk = &disks[i];
        if disk.total > 0 && !seen {
            let free: u64 = free_of(disk);
            let ghost shown = volumes@;
            volumes.push(
                StorageVolume {
                    nom: disk.name.clone(),
                    point_montage: disk.mount_point.clone(),
                    systeme_fichiers: disk.filesystem.clone(),
                    type_stockage: disk.kind.clone(),
                    total: disk.total,
                    utilise: disk.total - free,
                    disponible: free,
                },
            );
            assert(listed(volumes@) =~= listed(shown).push(volume_of(disks@[i as int])));
            assert(volumes_of(disks@.take(i + 1)).drop_last() =~= volumes_of(before));
            total = match total.checked_add(disk.total) {
                Some(sum) => sum,
                None => u64::MAX,
            };
            available = match available.checked_add(free) {
                Some(sum) => sum,
                None => u64::MAX,
            };
        }
    }
    assert(disks@.take(disks@.len() as int) =~= disks@);
    (volumes, total, available)
}

// ---------------------------------------------------------------------------
// The profile
// ---------------------------------------------------------------------------

/// What a profile says of the system, the processor and the memory.
pub open spec fn machine_part(profile: HardwareProfile, readings: PcReadings, now: u64) -> bool {
    &&& profile.os@ == or_unknown(text::opt(readings.os))
    &&& profile.kernel@ == or_unknown(text::opt(readings.kernel))
    &&& profile.architecture@ == readings.architecture@
    &&& profile.hostname@ == or_unknown(text::opt(readings.hostname))
    &&& profile.date_mesure_unix == now
    &&& profile.uptime_secondes == readings.uptime_seconds
    &&& profile.backend_version@ == readings.backend_version@
    &&& profile.cpu@ == cpu_name(readings)
    &&& profile.cpu_coeurs == (match readings.physical_cores {
        Some(cores) => cores,
        None => match readings.cpu {
            Some(cpu) => cpu.total_cores as usize,
            None => readings.frequencies@.len() as usize,
        },
    })
    &&& profile.cpu_threads == (match readings.cpu {
        Some(cpu) if cpu.total_threads > 0 => cpu.total_threads as usize,
        _ => readings.frequencies@.len() as usize,
    })
    &&& profile.cpu_frequence_mhz == cpu_frequency(readings)
    &&& profile.cpu_utilisation == (match readings.cpu {
        Some(cpu) => normal_share(cpu.utilization),
        None => normal_share(readings.utilization),
    })
    &&& profile.cpu_temperature == cpu_warmth(readings)
    &&& profile.ram_total == readings.ram_total
    &&& profile.ram_disponible == readings.ram_available
    &&& text::opt(profile.ram_type) == (match readings.cpu {
        Some(cpu) if cpu.apple_silicon => Some("Mémoire unifiée"@),
        _ => None,
    })
}

struct CardFacts {
    name: String,
    nvidia: bool,
    total: u64,
    used: u64,
    utilization: u64,
    temperature: Option<u64>,
    backend: String,
    cuda: bool,
    cuda_version: Option<String>,
    driver: Option<String>,
}

fn read_card(gpu: &GpuReading) -> (facts: CardFacts)
    ensures
        facts.name@ == gpu.name@,
        facts.nvidia == nvidia(gpu.name@, pairs(gpu.detail@)),
        facts.total == gpu.total_memory,
        facts.used == if gpu.used_memory < gpu.total_memory {
            gpu.used_memory
        } else {
            gpu.total_memory
        },
        facts.utilization == normal_share(gpu.utilization),
        facts.temperature == host::warmth(gpu.temperature),
        facts.backend@ == backend_of(*gpu),
        text::opt(facts.cuda_version) == cuda_of(*gpu),
        text::opt(facts.driver) == driver_of(*gpu),
        facts.cuda == (facts.nvidia && (text::lower(backend_of(*gpu)) == text::lower("cuda"@)
            || cuda_of(*gpu) is Some)),
{
    let known = is_nvidia_gpu(gpu.name.as_str(), &gpu.detail);
    let library: [&str; 1] = ["lib_name"];
    let versions: [&str; 3] = ["CUDA Version", "cuda_version", "lib_version"];
    let drivers: [&str; 2] = ["Driver Version", "driver_version"];
    assert(keys_view(library@) =~= seq!["lib_name"@]);
    assert(keys_view(versions@) =~= seq!["CUDA Version"@, "cuda_version"@, "lib_version"@]);
    assert(keys_view(drivers@) =~= seq!["Driver Version"@, "driver_version"@]);
    let backend = match detail_value(&gpu.detail, &library) {
        Some(name) => name,
        None => "GPU".to_owned(),
    };
    let (cuda_version, driver) = if known {
        (detail_value(&gpu.detail, &versions), detail_value(&gpu.detail, &drivers))
    } else {
        (None, None)
    };
    let cuda = known && (text::same_ignoring_ascii_case(backend.as_str(), "cuda")
        || cuda_version.is_some());
    CardFacts {
        name: gpu.name.clone(),
        nvidia: known,
        total: gpu.total_memory,
        used: if gpu.used_memory < gpu.total_memory {
            gpu.used_memory
        } else {
            gpu.total_memory
        },
        utilization: normalized_percentage(gpu.utilization),
        temperature: normalized_temperature(gpu.temperature),
        backend,
        cuda,
        cuda_version,
        driver,
    }
}

/// Puts the profile of the machine together from what was read of it.
pub fn check_pc(readings: &PcReadings, now: u64) -> (profile: HardwareProfile)
    requires
        host::sum_of(readings.frequencies@) <= u64::MAX,
    ensures
        machine_part(profile, *readings, now),
        profile.nbrs_total_gpu == readings.gpus@.len(),
        match chosen_card(readings.gpus@) {
            Some(at) => card_part(profile, readings.gpus@[at]),
            None => no_card_part(profile),
        },
        listed(profile.stockage_volumes@) == volumes_of(readings.disks@),
        (profile.stockage_total, profile.stockage_disponible) == volume_sums(
            volumes_of(readings.disks@),
        ),
        profile.taille_storage == profile.stockage_disponible,
{
    let card = match choose_card(&readings.gpus) {
        Some(at) => read_card(&readings.gpus[at]),
        None => CardFacts {
            name: "Aucun GPU".to_owned(),
            nvidia: false,
            total: 0,
            used: 0,
            utilization: 0,
            temperature: None,
            backend: "CPU".to_owned(),
            cuda: false,
            cuda_version: None,
            driver: None,
        },
    };
    let (volumes, total, available) = list_volumes(&readings.disks);
    let mean: u64 = match host::average_frequency(&readings.frequencies) {
        Some(found) => found,
        None => 0,
    };
    let logical: usize = readings.frequencies.len();
    let mut cores: usize = logical;
    let mut threads: usize = logical;
    let mut frequency: u64 = mean;
    let mut utilization: u64 = normalized_percentage(readings.utilization);
    let mut told: Option<u64> = None;
    let mut ram_type: Option<String> = None;
    match &readings.cpu {
        Some(cpu) => {
            cores = cpu.total_cores as usize;
            if cpu.total_threads > 0 {
                threads = cpu.total_threads as usize;
            }
            if cpu.base_frequency_mhz > 0 {
                frequency = cpu.base_frequency_mhz as u64;
            }
            utilization = normalized_percentage(cpu.utilization);
            match cpu.temperature {
                Some(bits) => {
                    told = normalized_temperature(bits);
                },
                None => {},
            }
            if cpu.apple_silicon {
                ram_type = Some("Mémoire unifiée".to_owned());
            }
        },
        None => {},
    }
    match readings.physical_cores {
        Some(count) => {
            cores = count;
        },
        None => {},
    }
    let warmth = match told {
        Some(bits) => Some(bits),
        None => host::cpu_temperature(&readings.sensors),
    };
    HardwareProfile {
        os: known_or_unknown(&readings.os),
        kernel: known_or_unknown(&readings.kernel),
        architecture: readings.architecture.clone(),
        hostname: known_or_unknown(&readings.hostname),
        date_mesure_unix: now,
        uptime_secondes: readings.uptime_seconds,
        backend_version: readings.backend_version.clone(),
        cpu: name_cpu(readings),
        cpu_coeurs: cores,
        cpu_threads: threads,
        cpu_frequence_mhz: frequency,
        cpu_utilisation: utilization,
        cpu_temperature: warmth,
        ram_total: readings.ram_total,
        ram_disponible: readings.ram_available,
        ram_type,
        nbrs_total_gpu: readings.gpus.len(),
        name_carte: card.name,
        gpu_est_nvidia: card.nvidia,
        vram_total: card.total,
        vram_utilisee: card.used,
        vram_disponible: card.total - card.used,
        gpu_utilisation: card.utilization,
        gpu_temperature: card.temperature,
        taille_storage: available,
        stockage_total: total,
        stockage_disponible: available,
        stockage_volumes: volumes,
        gpu_backend: card.backend,
        cuda_disponible: card.cuda,
        cuda_version: card.cuda_version,
        gpu_driver_version: card.driver,
    }
}

// ---------------------------------------------------------------------------
// Laws
// ---------------------------------------------------------------------------

/// Where there is a card of NVIDIA, the card that is used is one.
pub proof fn law_nvidia_comes_first(gpus: Seq<GpuReading>, i: int)
    requires
        0 <= i < gpus.len(),
        nvidia(gpus[i].name@, pairs(gpus[i].detail@)),
    ensures
        chosen_card(gpus) matches Some(at) && 0 <= at < gpus.len() && nvidia(
            gpus[at].name@,
            pairs(gpus[at].detail@),
        ),
    decreases gpus.len(),
{
    lemma_nvidia_at(gpus);
    if i < gpus.len() - 1 {
        law_nvidia_comes_first(gpus.drop_last(), i);
        lemma_nvidia_at(gpus.drop_last());
        assert(nvidia_at(gpus.drop_last()) is Some) by {
            if nvidia_at(gpus.drop_last()) is None {
                lemma_no_nvidia(gpus.drop_last(), i);
            }
        }
    }
}

proof fn lemma_no_nvidia(gpus: Seq<GpuReading>, i: int)
    requires
        0 <= i < gpus.len(),
        nvidia_at(gpus) is None,
    ensures
        !nvidia(gpus[i].name@, pairs(gpus[i].detail@)),
    decreases gpus.len(),
{
    if i < gpus.len() - 1 {
        lemma_no_nvidia(gpus.drop_last(), i);
    }
}

/// Another mount of a pool that is listed is not listed again.
pub proof fn law_pools_are_listed_once(disks: Seq<DiskReading>, mount: DiskReading, i: int)
    requires
        0 <= i < disks.len(),
        same_pool(disks[i], mount),
    ensures
        volumes_of(disks.push(mount)) == volumes_of(disks),
{
    assert(disks.push(mount).drop_last() =~= disks);
}

/// A detail of a card is the first that is told under one of its names; an empty
/// one, or one that says 0.0, is not told.
pub proof fn law_details_are_told(
    details: Seq<(Seq<char>, Seq<char>)>,
    key: Seq<char>,
    other: Seq<char>,
)
    ensures
        first_told(details, seq![key]) == told(detail(details, key)),
        told(detail(details, key)) is Some ==> first_told(details, seq![key, other]) == told(
            detail(details, key),
        ),
        told(detail(details, key)) is None ==> first_told(details, seq![key, other]) == told(
            detail(details, other),
        ),
        told(None) is None,
        told(Some(key)) is Some <==> text::trimmed(key).len() > 0 && text::trimmed(key) != "0.0"@,
        told(Some(key)) matches Some(value) ==> value == text::trimmed(key),
        details.len() > 0 && details[0].0 == key ==> detail(details, key) == Some(details[0].1),
        details.len() == 0 ==> detail(details, key) is None,
{
    reveal_with_fuel(first_told, 4);
    let one = seq![key];
    let two = seq![key, other];
    assert(one.drop_first().len() == 0);
    assert(two.drop_first().len() == 1 && two.drop_first()[0] == other);
    assert(two.drop_first().drop_first().len() == 0);
}

/// A card is one of NVIDIA where its name says so or where it is told of CUDA.
pub proof fn law_cards_of_nvidia_are_known(
    name: Seq<char>,
    details: Seq<(Seq<char>, Seq<char>)>,
)
    ensures
        text::occurs(text::lower(name), "nvidia"@) ==> nvidia(name, details),
        detail(details, "CUDA Version"@) is Some || detail(details, "cuda_version"@) is Some
            ==> nvidia(name, details),
        !text::occurs(text::lower(name), "nvidia"@) && details.len() == 0 ==> !nvidia(
            name,
            details,
        ),
{
}

/// The card that is told is the first of NVIDIA, else the first, and none where
/// there is none.
pub proof fn law_the_first_card_is_told(gpus: Seq<GpuReading>)
    ensures
        gpus.len() == 0 ==> chosen_card(gpus) is None,
        gpus.len() > 0 ==> (chosen_card(gpus) matches Some(at) && 0 <= at < gpus.len()),
        gpus.len() > 0 && (forall|i: int|
            0 <= i < gpus.len() ==> !nvidia(
                (#[trigger] gpus[i]).name@,
                pairs(gpus[i].detail@),
            )) ==> chosen_card(gpus) == Some(0int),
        gpus.len() > 0 && nvidia(gpus[0].name@, pairs(gpus[0].detail@)) ==> chosen_card(gpus)
            == Some(0int),
{
    lemma_nvidia_at(gpus);
    if gpus.len() > 0 && nvidia(gpus[0].name@, pairs(gpus[0].detail@)) {
        lemma_first_nvidia(gpus);
    }
    if gpus.len() > 0 && (forall|i: int|
        0 <= i < gpus.len() ==> !nvidia((#[trigger] gpus[i]).name@, pairs(gpus[i].detail@))) {
        lemma_none_of_nvidia(gpus);
    }
}

proof fn lemma_first_nvidia(gpus: Seq<GpuReading>)
    requires
        gpus.len() > 0,
        nvidia(gpus[0].name@, pairs(gpus[0].detail@)),
    ensures
        nvidia_at(gpus) == Some(0int),
    decreases gpus.len(),
{
    let rest = gpus.drop_last();
    if rest.len() > 0 {
        assert(rest[0] == gpus[0]);
        lemma_first_nvidia(rest);
    } else {
        assert(gpus.last() == gpus[0]);
        assert(nvidia_at(rest) is None);
    }
}

proof fn lemma_none_of_nvidia(gpus: Seq<GpuReading>)
    requires
        forall|i: int|
            0 <= i < gpus.len() ==> !nvidia((#[trigger] gpus[i]).name@, pairs(gpus[i].detail@)),
    ensures
        nvidia_at(gpus) is None,
    decreases gpus.len(),
{
    if gpus.len() > 0 {
        let rest = gpus.drop_last();
        assert forall|i: int| 0 <= i < rest.len() implies !nvidia(
            (#[trigger] rest[i]).name@,
            pairs(rest[i].detail@),
        ) by {
            assert(rest[i] == gpus[i]);
        }
        lemma_none_of_nvidia(rest);
        assert(gpus.last() == gpus[gpus.len() - 1]);
    }
}

/// A card is told with its name and its memory, of which no more is used than there
/// is, and what is not used is free.
pub proof fn law_cards_are_told_as_read(profile: HardwareProfile, gpu: GpuReading)
    requires
        card_part(profile, gpu),
    ensures
        profile.name_carte@ == gpu.name@ && profile.vram_total == gpu.total_memory,
        profile.vram_utilisee + profile.vram_disponible == profile.vram_total,
        gpu.used_memory <= gpu.total_memory ==> profile.vram_utilisee == gpu.used_memory,
        text::occurs(text::lower(gpu.name@), "nvidia"@) ==> profile.gpu_est_nvidia,
        profile.cuda_disponible ==> profile.gpu_est_nvidia,
        !profile.gpu_est_nvidia ==> profile.cuda_version is None && profile.gpu_driver_version
            is None,
        profile.gpu_est_nvidia && profile.cuda_version is Some ==> profile.cuda_disponible,
        gpu.utilization <= 0x4059_0000_0000_0000 ==> profile.gpu_utilisation == gpu.utilization,
        0 < gpu.temperature < 0x4069_0000_0000_0000 ==> profile.gpu_temperature == Some(
            gpu.temperature,
        ),
{
}

/// A machine without a card is told without one.
pub proof fn law_machines_without_a_card_say_so(profile: HardwareProfile)
    requires
        no_card_part(profile),
    ensures
        profile.vram_total == 0 && profile.vram_disponible == 0 && !profile.gpu_est_nvidia
            && !profile.cuda_disponible && profile.gpu_backend@ == "CPU"@ && profile.name_carte@
            == "Aucun GPU"@,
{
}

/// The machine is told as it was read, and what is not known is called unknown.
pub proof fn law_the_machine_is_told_as_read(
    profile: HardwareProfile,
    readings: PcReadings,
    now: u64,
)
    requires
        machine_part(profile, readings, now),
    ensures
        profile.ram_total == readings.ram_total && profile.ram_disponible
            == readings.ram_available,
        profile.date_mesure_unix == now && profile.uptime_secondes == readings.uptime_seconds,
        profile.architecture@ == readings.architecture@ && profile.backend_version@
            == readings.backend_version@,
        readings.os matches Some(name) ==> profile.os@ == name@,
        readings.os is None ==> profile.os@ == "Inconnu"@,
        readings.hostname matches Some(name) ==> profile.hostname@ == name@,
        readings.kernel matches Some(name) ==> profile.kernel@ == name@,
        readings.physical_cores matches Some(cores) ==> profile.cpu_coeurs == cores,
        readings.cpu matches Some(cpu) ==> {
            &&& text::trimmed(cpu.model@).len() > 0 ==> profile.cpu@ == text::trimmed(cpu.model@)
            &&& cpu.base_frequency_mhz > 0 ==> profile.cpu_frequence_mhz == cpu.base_frequency_mhz
            &&& cpu.total_threads > 0 ==> profile.cpu_threads == cpu.total_threads
            &&& cpu.utilization <= 0x4059_0000_0000_0000 ==> profile.cpu_utilisation
                == cpu.utilization
            &&& cpu.temperature matches Some(bits) ==> (0 < bits < 0x4069_0000_0000_0000
                ==> profile.cpu_temperature == Some(bits))
            &&& cpu.apple_silicon ==> text::opt(profile.ram_type) == Some("Mémoire unifiée"@)
            &&& !cpu.apple_silicon ==> profile.ram_type is None
        },
        readings.cpu is None && readings.brands@.len() == 0 ==> profile.cpu@ == "CPU inconnu"@,
        readings.cpu is None && readings.frequencies@.len() == 0 ==> profile.cpu_frequence_mhz == 0,
        readings.cpu is None && readings.utilization <= 0x4059_0000_0000_0000
            ==> profile.cpu_utilisation == readings.utilization,
{
}

/// A volume is told with its place, its size and what of it is free, and the sums
/// are those over the volumes.
pub proof fn law_volumes_are_told(disk: DiskReading, volumes: Seq<VolumeView>, next: VolumeView)
    ensures
        ({
            let volume = volume_of(disk);
            &&& volume.nom == disk.name@ && volume.point_montage == disk.mount_point@
                && volume.systeme_fichiers == disk.filesystem@ && volume.type_stockage
                == disk.kind@
            &&& volume.total == disk.total && volume.utilise + volume.disponible == disk.total
            &&& disk.available <= disk.total ==> volume.disponible == disk.available
        }),
        volume_sums(Seq::empty()) == (0u64, 0u64),
        volume_sums(volumes).0 + next.total <= u64::MAX ==> volume_sums(volumes.push(next)).0
            == volume_sums(volumes).0 + next.total,
        volume_sums(volumes).1 + next.disponible <= u64::MAX ==> volume_sums(volumes.push(next)).1
            == volume_sums(volumes).1 + next.disponible,
{
    assert(volumes.push(next).drop_last() =~= volumes);
}

} // verus!
