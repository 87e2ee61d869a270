//! The figures of the home page.
use crate::browse;
use crate::generation;
use crate::generation::{AssetKind, Generation, GenerationStatus, GenerationView, Generations};
use crate::text;
use vstd::prelude::*;
use vstd::string::*;

verus! {

/// How many generations satisfy a condition.
pub open spec fn counted(
    list: Seq<GenerationView>,
    wanted: spec_fn(GenerationView) -> bool,
) -> nat
    decreases list.len(),
{
    if list.len() == 0 {
        0
    } else {
        counted(list.drop_last(), wanted) + if wanted(list.last()) {
            1nat
        } else {
            0
        }
    }
}

/// Whether a generation made something of a kind.
pub open spec fn made(kind: AssetKind) -> spec_fn(GenerationView) -> bool {
    |generation: GenerationView|
        generation.kind == kind && generation.status == GenerationStatus::Completed
}

/// Whether a generation waits or runs.
pub open spec fn running() -> spec_fn(GenerationView) -> bool {
    |generation: GenerationView| generation::unfinished(generation.status)
}

/// A file that stands among the assets.
#[derive(Debug)]
pub struct StoredFile {
    /// What follows the last dot of its name, if any.
    pub extension: Option<String>,
    pub bytes: u64,
}

/// The bytes of the files that are not manifests.
pub open spec fn stored_bytes(files: Seq<StoredFile>) -> nat
    decreases files.len(),
{
    if files.len() == 0 {
        0
    } else {
        stored_bytes(files.drop_last()) + if text::opt(files.last().extension) == Some("json"@) {
            0
        } else {
            files.last().bytes as nat
        }
    }
}

proof fn lemma_stored_grows(files: Seq<StoredFile>, count: int)
    requires
        0 <= count <= files.len(),
    ensures
        stored_bytes(files.take(count)) <= stored_bytes(files),
    decreases files.len() - count,
{
    if count < files.len() {
        lemma_stored_grows(files, count + 1);
        assert(files.take(count + 1).drop_last() =~= files.take(count));
    } else {
        assert(files.take(count) =~= files);
    }
}

/// Adds up the bytes of the files that are not manifests; `None` where the sum is
/// beyond 64 bits.
pub fn add_up(files: &Vec<StoredFile>) -> (total: Option<u64>)
    ensures
        match total {
            Some(sum) => sum == stored_bytes(files@),
            None => stored_bytes(files@) > u64::MAX,
        },
{
    let mut total: u64 = 0;
    for i in 0..files.len()
        invariant
            total == stored_bytes(files@.take(i as int)),
    {
        proof {
            lemma_stored_grows(files@, i + 1);
            assert(files@.take(i + 1).drop_last() =~= files@.take(i as int));
        }
        if !text::opt_is(&files[i].extension, "json") {
            match total.checked_add(files[i].bytes) {
                Some(sum) => {
                    total = sum;
                },
                None => {
                    return None;
                },
            }
        }
    }
    assert(files@.take(files@.len() as int) =~= files@);
    Some(total)
}

/// The figures of the home page.
#[derive(Debug)]
pub struct DashboardView {
    pub generations_total: usize,
    pub generations_running: usize,
    pub images_created: usize,
    pub videos_created: usize,
    pub storage_bytes: u64,
    pub installed_models: usize,
    pub loaded_models: usize,
    pub recent_generations: Vec<Generation>,
}

/// Whether a list holds the six newest generations, the newer first.
pub open spec fn is_recent(recent: Seq<GenerationView>, list: Seq<GenerationView>) -> bool {
    exists|all: Seq<GenerationView>| #[trigger]
        generation::is_listing(all, list) && recent == if all.len() <= 6 {
            all
        } else {
            all.take(6)
        }
}

/// The figures of the home page. `installed` is the number of models on the disk
/// beside the built-in engines, `loaded` that of the models in memory.
pub fn get_dashboard(
    generations: &Generations,
    files: &Vec<StoredFile>,
    installed: usize,
    loaded: usize,
) -> (figures: DashboardView)
    requires
        stored_bytes(files@) <= u64::MAX,
        installed < usize::MAX - 1,
    ensures
        figures.generations_total == generations@.len(),
        figures.generations_running == counted(generations@, running()),
        figures.images_created == counted(generations@, made(AssetKind::Image)),
        figures.videos_created == counted(generations@, made(AssetKind::Video)),
        figures.storage_bytes == stored_bytes(files@),
        figures.installed_models == installed + 2,
        figures.loaded_models == loaded,
        is_recent(
            Seq::new(
                figures.recent_generations@.len(),
                |i: int| figures.recent_generations@[i]@,
            ),
            generations@,
        ),
{
    let listing = generations.list_generations();
    let ghost all = Seq::new(listing@.len(), |i: int| listing@[i]@);
    let mut recent: Vec<Generation> = Vec::new();
    let kept: usize = if listing.len() <= 6 {
        listing.len()
    } else {
        6
    };
    for i in 0..kept
        invariant
            kept <= listing@.len(),
            recent@.len() == i,
            forall|j: int| 0 <= j < i ==> (#[trigger] recent@[j])@ == listing@[j]@,
    {
        recent.push(listing[i].copy());
    }
    proof {
        let shown = Seq::new(recent@.len(), |i: int| recent@[i]@);
        assert(shown =~= if all.len() <= 6 {
            all
        } else {
            all.take(6)
        });
        assert(generation::is_listing(all, generations@));
    }
    let mut active: usize = 0;
    let mut images: usize = 0;
    let mut videos: usize = 0;
    for i in 0..generations.list.len()
        invariant
            active <= i,
            images <= i,
            videos <= i,
            active == counted(generations@.take(i as int), running()),
            images == counted(generations@.take(i as int), made(AssetKind::Image)),
            videos == counted(generations@.take(i as int), made(AssetKind::Video)),
    {
        assert(generations@.take(i + 1).drop_last() =~= generations@.take(i as int));
        let status = generations.list[i].status;
        let kind = generations.list[i].kind;
        if status == GenerationStatus::Queued || status == GenerationStatus::Running {
            active = active + 1;
        }
        if status == GenerationStatus::Completed {
            if kind == AssetKind::Image {
                images = images + 1;
            } else if kind == AssetKind::Video {
                videos = videos + 1;
            }
        }
    }
    assert(generations@.take(generations@.len() as int) =~= generations@);
    let storage: u64 = match add_up(files) {
        Some(sum) => sum,
        None => 0,
    };
    let engines = browse::local_runtime_models();
    assert(browse::local_engines().len() == engines@.len());
    DashboardView {
        generations_total: generations.list.len(),
        generations_running: active,
        images_created: images,
        videos_created: videos,
        storage_bytes: storage,
        installed_models: installed + engines.len(),
        loaded_models: loaded,
        recent_generations: recent,
    }
}

/// Each generation is counted once at most: those that run and those that made
/// something are no more than all.
pub proof fn law_figures_add_up(list: Seq<GenerationView>)
    ensures
        counted(list, running()) + counted(list, made(AssetKind::Image)) + counted(
            list,
            made(AssetKind::Video),
        ) <= list.len(),
    decreases list.len(),
{
    if list.len() > 0 {
        law_figures_add_up(list.drop_last());
    }
}

/// What is counted is what it is called: generations that wait or run, and those
/// that have completed with a picture or with a video.
pub proof fn law_figures_count_what_they_are_called(list: Seq<GenerationView>, next: GenerationView)
    ensures
        counted(list.push(next), running()) == counted(list, running()) + if next.status
            == GenerationStatus::Queued || next.status == GenerationStatus::Running {
            1nat
        } else {
            0
        },
        counted(list.push(next), made(AssetKind::Image)) == counted(list, made(AssetKind::Image))
            + if next.status == GenerationStatus::Completed && next.kind == AssetKind::Image {
            1nat
        } else {
            0
        },
        counted(list.push(next), made(AssetKind::Video)) == counted(list, made(AssetKind::Video))
            + if next.status == GenerationStatus::Completed && next.kind == AssetKind::Video {
            1nat
        } else {
            0
        },
        counted(Seq::empty(), running()) == 0,
        counted(Seq::empty(), made(AssetKind::Image)) == 0,
        counted(Seq::empty(), made(AssetKind::Video)) == 0,
{
    assert(list.push(next).drop_last() =~= list);
}

/// The bytes that are stored are those of all files but the manifests.
pub proof fn law_bytes_are_those_of_the_files(files: Seq<StoredFile>, next: StoredFile)
    ensures
        stored_bytes(Seq::empty()) == 0,
        stored_bytes(files.push(next)) == stored_bytes(files) + if text::opt(next.extension)
            == Some("json"@) {
            0
        } else {
            next.bytes as nat
        },
{
    assert(files.push(next).drop_last() =~= files);
}

/// The recent generations are at most six, and no generation that is left out is
/// newer than one of them.
pub proof fn law_recent_generations_are_the_newest(
    recent: Seq<GenerationView>,
    list: Seq<GenerationView>,
    i: int,
    j: int,
)
    requires
        is_recent(recent, list),
        list.len() <= usize::MAX,
        0 <= i < recent.len(),
        0 <= j < list.len(),
    ensures
        recent.len() == if list.len() <= 6 {
            list.len()
        } else {
            6
        },
        list.contains(recent[i]),
        recent.contains(list[j]) || list[j].created_at <= recent[i].created_at,
{
    let all = choose|all: Seq<GenerationView>| #[trigger]
        generation::is_listing(all, list) && recent == if all.len() <= 6 {
            all
        } else {
            all.take(6)
        };
    generation::law_newer_generations_come_first(all, list);
    assert(recent[i] == all[i]);
    assert(all.contains(list[j]));
    let k = choose|k: int| 0 <= k < all.len() && all[k] == list[j];
    if k < recent.len() {
        assert(recent[k] == list[j]);
    } else {
        assert(all[i].created_at >= all[k].created_at);
    }
}

} // verus!
