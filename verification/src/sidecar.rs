//! The sidecar of a post: the vector rendering that is kept on disk beside the
//! site's assets and made again only when the post or the shared components
//! file has changed since.
//!
//! Nothing here touches the disk. The caller reads the modification times and
//! runs the compiler; this module says where the sidecar lies, whether it is
//! still good, and how the compiler is to be called.

use vstd::prelude::*;

verus! {

/// The directory of the sidecars, with its closing slash.
pub const SIDECAR_DIR: &'static str = "output/assets/blog/posts/";

/// What a sidecar's name ends with.
pub const SIDECAR_SUFFIX: &'static str = ".tinymist.html";

/// The components file that every post depends on.
pub const COMPONENTS_PATH: &'static str = "output/assets/blog/components.typ";

/// The program that makes sidecars.
pub const SVG_COMPILER: &'static str = "tinymist";

/// The modification times that decide whether a sidecar is still good, each
/// `None` where it could not be read. A time is a count of nanoseconds from
/// a common origin; only the order of times matters.
#[derive(Clone, Copy, PartialEq, Eq, Debug)]
pub struct FileTimes {
    pub sidecar: Option<i128>,
    pub source: Option<i128>,
    pub components: Option<i128>,
}

/// `other` is known to be strictly later than `time`. A time that could not
/// be read is not later than anything.
pub open spec fn is_newer(other: Option<i128>, time: i128) -> bool {
    match other {
        Some(t) => t > time,
        None => false,
    }
}

/// The sidecar is still good: it is there, and neither the source nor the
/// components file is strictly later than it.
pub open spec fn is_fresh(times: FileTimes) -> bool {
    match times.sidecar {
        None => false,
        Some(sidecar) => !is_newer(times.source, sidecar) && !is_newer(times.components, sidecar),
    }
}

/// Where the sidecar of the post `stem` lies.
pub open spec fn sidecar_path(stem: Seq<char>) -> Seq<char> {
    SIDECAR_DIR@ + stem + SIDECAR_SUFFIX@
}

/// The arguments with which the compiler writes the sidecar of a source.
pub open spec fn svg_arguments(source_path: Seq<char>, sidecar_path: Seq<char>) -> Seq<Seq<char>> {
    seq!["compile"@, source_path, sidecar_path, "--root"@, "."@, "--format"@, "svg"@]
}

/// What the files look like after a check of the sidecar that ran the
/// compiler where one was due: where the sidecar was fresh nothing has
/// changed, and where it was not, the compiler wrote it at `written`.
pub open spec fn after_check(times: FileTimes, written: i128) -> FileTimes {
    if is_fresh(times) {
        times
    } else {
        FileTimes { sidecar: Some(written), source: times.source, components: times.components }
    }
}

/// A sidecar that is not later than what it was made from stays fresh, and a
/// fresh one is fresh at the next look: after one check, with the compiler
/// having written the sidecar no earlier than the source and the components
/// file were last changed, and with no file changed since, a second check
/// finds it fresh and calls for no compiler.
pub proof fn lemma_second_check_is_fresh(times: FileTimes, written: i128)
    requires
        !is_newer(times.source, written),
        !is_newer(times.components, written),
    ensures
        is_fresh(after_check(times, written)),
        after_check(after_check(times, written), written) == after_check(times, written),
{
}

/// A sidecar that is a unit of time later than both the source and the
/// components file is fresh; a source that is a unit later than the sidecar
/// makes it stale, and so does a components file that is.
pub proof fn lemma_freshness_by_one(time: i128)
    requires
        i128::MIN < time < i128::MAX,
    ensures
        is_fresh(
            FileTimes {
                sidecar: Some(time),
                source: Some((time - 1) as i128),
                components: Some((time - 1) as i128),
            },
        ),
        !is_fresh(
            FileTimes {
                sidecar: Some(time),
                source: Some((time + 1) as i128),
                components: Some((time - 1) as i128),
            },
        ),
        !is_fresh(
            FileTimes {
                sidecar: Some(time),
                source: Some((time - 1) as i128),
                components: Some((time + 1) as i128),
            },
        ),
{
}

/// A missing sidecar is stale whatever the other times are, and a sidecar
/// beside files whose times could not be read is fresh.
pub proof fn lemma_unreadable_times(source: Option<i128>, components: Option<i128>, time: i128)
    ensures
        !is_fresh(FileTimes { sidecar: None, source, components }),
        is_fresh(FileTimes { sidecar: Some(time), source: None, components: None }),
{
}

/// Whether the sidecar has to be made again.
pub fn needs_regeneration(times: &FileTimes) -> (r: bool)
    ensures
        r == !is_fresh(*times),
{
    match times.sidecar {
        None => true,
        Some(sidecar) => {
            let source_newer = match times.source {
                Some(t) => t > sidecar,
                None => false,
            };
            let components_newer = match times.components {
                Some(t) => t > sidecar,
                None => false,
            };
            source_newer || components_newer
        },
    }
}

/// Where the sidecar of the post `stem` lies.
pub fn sidecar_path_for(stem: &str) -> (r: String)
    ensures
        r@ == sidecar_path(stem@),
{
    let mut path = String::new();
    path.append(SIDECAR_DIR);
    path.append(stem);
    path.append(SIDECAR_SUFFIX);
    assert(path@ =~= sidecar_path(stem@));
    path
}

/// The sidecar of the post `stem` as it was left by an earlier run: its path
/// where the file exists, `None` where it does not.
pub fn tinymist_sidecar_path(stem: &str, on_disk: bool) -> (r: Option<String>)
    ensures
        on_disk ==> r.deep_view() == Some(sidecar_path(stem@)),
        !on_disk ==> r.deep_view() == None::<Seq<char>>,
{
    if on_disk {
        Some(sidecar_path_for(stem))
    } else {
        None
    }
}

/// The arguments with which the compiler writes the sidecar of a source.
pub fn svg_compile_args(source_path: &str, sidecar_path: &str) -> (r: Vec<String>)
    ensures
        r.deep_view() == svg_arguments(source_path@, sidecar_path@),
{
    let mut args: Vec<String> = Vec::new();
    args.push("compile".to_owned());
    args.push(source_path.to_owned());
    args.push(sidecar_path.to_owned());
    args.push("--root".to_owned());
    args.push(".".to_owned());
    args.push("--format".to_owned());
    args.push("svg".to_owned());
    assert(args.deep_view() =~= svg_arguments(source_path@, sidecar_path@));
    args
}

} // verus!
