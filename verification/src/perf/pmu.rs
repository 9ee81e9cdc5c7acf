//! Named PMUs: splitting the `pmu/terms` form, reading a PMU's numeric `type`, its `cpumask` /
//! `cpus`, and enumerating the task-attachable core PMUs.
//!
//! A named PMU (`cpu_core`, `uncore_imc_0`, `power`, ...) is addressed by the numeric id in
//! `/sys/bus/event_source/devices/<pmu>/type`. Its `cpumask` (when present) tells the system-wide
//! PMUs apart from the task-attachable core ones, which expose `cpus` instead. The files are read
//! by the caller and handed over as a [`SysfsView`].

use vstd::prelude::*;
use crate::text::{
    chars_of, first_at, is_word, lemma_split_once_shorter, parse_unsigned, parsed_unsigned, same_chars,
    slice_to_vec_range, split_all, split_once, split_once_at, string_of, trim, trimmed,
};

verus! {

/// Splits a `pmu/terms` string into its PMU name and inner term list.
pub open spec fn split_spec(name: Seq<char>) -> Option<(Seq<char>, Seq<char>)> {
    match split_once_at(name, '/') {
        None => None,
        Some((pmu, terms0)) => {
            let terms = if terms0.len() > 0 && terms0.last() == '/' {
                terms0.drop_last()
            } else {
                terms0
            };
            if pmu.len() == 0 || terms.len() == 0 || terms.contains('/') {
                None
            } else {
                Some((pmu, terms))
            }
        },
    }
}

/// Splits a `pmu/terms` string into its PMU name and inner term list (the closing `/` is
/// optional). Returns `None` for any other shape.
pub fn split(name: &str) -> (r: Option<(String, String)>)
    ensures
        r matches Some(p) ==> split_spec(name@) == Some((p.0@, p.1@)),
        r is None ==> split_spec(name@) is None,
{
    let chars = chars_of(name);
    split_chars(chars.as_slice())
}

/// [`split`] on a character sequence.
pub fn split_chars(name: &[char]) -> (r: Option<(String, String)>)
    ensures
        r matches Some(p) ==> split_spec(name@) == Some((p.0@, p.1@)),
        r is None ==> split_spec(name@) is None,
{
    let (pmu, terms0) = split_once(name, '/')?;
    let n = terms0.len();
    let terms = if n > 0 && terms0[n - 1] == '/' {
        slice_to_vec_range(terms0.as_slice(), 0, n - 1)
    } else {
        terms0
    };
    proof {
        if terms0@.len() > 0 && terms0@.last() == '/' {
            assert(terms@ =~= terms0@.drop_last());
        }
    }
    if pmu.len() == 0 || terms.len() == 0 {
        return None;
    }
    match crate::text::find_char(terms.as_slice(), '/') {
        Some(i) => {
            assert(terms@.contains('/')) by {
                assert(terms@[i as int] == '/');
            }
            None
        },
        None => Some((string_of(pmu.as_slice()), string_of(terms.as_slice()))),
    }
}

/// What reading one sysfs file gave.
#[derive(Debug, Clone)]
pub enum FileRead {
    /// The file's content.
    Content(String),
    /// The file does not exist.
    NotFound,
    /// The file exists but could not be read.
    Failed,
}

impl FileRead {
    /// A copy of this outcome.
    pub fn duplicate(&self) -> (r: FileRead)
        ensures
            r == *self,
    {
        match self {
            FileRead::Content(c) => FileRead::Content(c.clone()),
            FileRead::NotFound => FileRead::NotFound,
            FileRead::Failed => FileRead::Failed,
        }
    }
}

/// The sysfs files of one PMU, under `/sys/bus/event_source/devices/<name>`.
#[derive(Debug, Clone)]
pub struct PmuFiles {
    pub name: String,
    pub type_file: FileRead,
    pub cpumask_file: FileRead,
    pub cpus_file: FileRead,
}

/// The package of one CPU, as read from its topology (`None` when it could not be read).
#[derive(Debug, Clone, Copy, PartialEq, Eq, Structural)]
pub struct CpuPackage {
    pub cpu: u32,
    pub package: Option<u32>,
}

/// The part of sysfs that the perf event descriptors depend on.
#[derive(Debug, Clone)]
pub struct SysfsView {
    /// The PMU directories, in directory order. A PMU that is not listed has no file at all.
    pub pmus: Vec<PmuFiles>,
    /// The list of online CPUs (`/sys/devices/system/cpu/online`).
    pub online: FileRead,
    /// The package of the known CPUs.
    pub packages: Vec<CpuPackage>,
}

/// Why a PMU file could not be used.
#[derive(Debug, Clone, PartialEq, Eq)]
pub enum PmuError {
    /// The file is missing or unreadable; its path is given.
    CannotRead(String),
    /// The `type` file does not hold a number; its path is given.
    InvalidType(String),
    /// A CPU list file does not hold a CPU list; its path is given.
    InvalidCpuList(String),
}

/// The kind of a [`PmuError`].
#[derive(Debug, Clone, Copy, PartialEq, Eq, Structural)]
pub enum PmuErrorKind {
    CannotRead,
    InvalidType,
    InvalidCpuList,
}

/// The kind of a PMU error.
pub open spec fn pmu_error_kind(e: PmuError) -> PmuErrorKind {
    match e {
        PmuError::CannotRead(_) => PmuErrorKind::CannotRead,
        PmuError::InvalidType(_) => PmuErrorKind::InvalidType,
        PmuError::InvalidCpuList(_) => PmuErrorKind::InvalidCpuList,
    }
}

/// The CPUs of one item of a CPU list: `N`, or the inclusive range `A-B` with `A <= B`.
pub open spec fn cpu_item(item: Seq<char>) -> Option<Seq<u32>> {
    match split_once_at(item, '-') {
        None => match parsed_unsigned(item, 10, u32::MAX as nat) {
            Some(n) => Some(seq![n as u32]),
            None => None,
        },
        Some((a, b)) => match (parsed_unsigned(a, 10, u32::MAX as nat), parsed_unsigned(b, 10, u32::MAX as nat)) {
            (Some(x), Some(y)) => if x <= y {
                Some(Seq::new((y - x + 1) as nat, |i: int| (x + i) as u32))
            } else {
                None
            },
            _ => None,
        },
    }
}

/// The CPUs of a sequence of CPU list items, in order.
pub open spec fn cpu_items(items: Seq<Seq<char>>) -> Option<Seq<u32>>
    decreases items.len(),
{
    if items.len() == 0 {
        Some(Seq::empty())
    } else {
        match cpu_item(items[0]) {
            None => None,
            Some(first) => match cpu_items(items.skip(1)) {
                None => None,
                Some(rest) => Some(first + rest),
            },
        }
    }
}

/// The CPUs of a kernel CPU list such as `0-3,8,10-11` (surrounding whitespace ignored; an empty
/// list has no CPU).
pub open spec fn cpu_list(s: Seq<char>) -> Option<Seq<u32>> {
    let t = trimmed(s);
    if t.len() == 0 {
        Some(Seq::empty())
    } else {
        cpu_items(split_all(t, ','))
    }
}

fn cpus_of_item(item: &[char]) -> (r: Option<Vec<u32>>)
    ensures
        r matches Some(v) ==> cpu_item(item@) == Some(v@),
        r is None ==> cpu_item(item@) is None,
{
    match split_once(item, '-') {
        None => {
            let n = parse_unsigned(item, 10, 0xffff_ffffu64)?;
            let mut v: Vec<u32> = Vec::new();
            v.push(n as u32);
            assert(v@ =~= seq![n as u32]);
            Some(v)
        },
        Some((a, b)) => {
            let x = parse_unsigned(a.as_slice(), 10, 0xffff_ffffu64)?;
            let y = parse_unsigned(b.as_slice(), 10, 0xffff_ffffu64)?;
            if x > y {
                return None;
            }
            let ghost (ga, gb) = (a@, b@);
            let x = x as u32;
            let y = y as u32;
            let mut v: Vec<u32> = Vec::new();
            let mut c: u32 = x;
            loop
                invariant
                    split_once_at(item@, '-') == Some((ga, gb)),
                    parsed_unsigned(ga, 10, u32::MAX as nat) == Some(x as nat),
                    parsed_unsigned(gb, 10, u32::MAX as nat) == Some(y as nat),
                    x <= c <= y,
                    v@ == Seq::new((c - x) as nat, |i: int| (x + i) as u32),
                decreases y - c,
            {
                v.push(c);
                if c == y {
                    assert(v@ =~= Seq::new((y - x + 1) as nat, |i: int| (x + i) as u32));
                    return Some(v);
                }
                c = c + 1;
                assert(v@ =~= Seq::new((c - x) as nat, |i: int| (x + i) as u32));
            }
        },
    }
}

fn append_u32(out: &mut Vec<u32>, more: &[u32])
    ensures
        final(out)@ == old(out)@ + more@,
{
    let mut i: usize = 0;
    while i < more.len()
        invariant
            0 <= i <= more@.len(),
            out@ == old(out)@ + more@.take(i as int),
        decreases more.len() - i,
    {
        out.push(more[i]);
        i = i + 1;
        assert(out@ =~= old(out)@ + more@.take(i as int));
    }
    assert(more@.take(more@.len() as int) =~= more@);
}

/// Parses a kernel CPU list such as `0-3,8,10-11`.
pub fn parse_cpu_list(s: &str) -> (r: Option<Vec<u32>>)
    ensures
        r matches Some(v) ==> cpu_list(s@) == Some(v@),
        r is None ==> cpu_list(s@) is None,
{
    let chars = chars_of(s);
    let t = trim(chars.as_slice(), false);
    let mut out: Vec<u32> = Vec::new();
    if t.len() == 0 {
        return Some(out);
    }
    let mut rest = t;
    loop
        invariant
            trimmed(s@).len() > 0,
            cpu_items(split_all(trimmed(s@), ',')) == match cpu_items(split_all(rest@, ',')) {
                None => None,
                Some(r) => Some(out@ + r),
            },
        decreases rest@.len(),
    {
        proof {
            lemma_split_once_shorter(rest@, ',');
        }
        match split_once(rest.as_slice(), ',') {
            Some((item, tail)) => {
                let ghost parts = seq![item@] + split_all(tail@, ',');
                proof {
                    assert(split_all(rest@, ',') == parts);
                    assert(parts[0] == item@);
                    assert(parts.skip(1) =~= split_all(tail@, ','));
                }
                match cpus_of_item(item.as_slice()) {
                    None => {
                        return None;
                    },
                    Some(cpus) => {
                        proof {
                            match cpu_items(split_all(tail@, ',')) {
                                None => {},
                                Some(r) => {
                                    assert(out@ + cpus@ + r =~= out@ + (cpus@ + r));
                                },
                            }
                        }
                        append_u32(&mut out, cpus.as_slice());
                    },
                }
                rest = tail;
            },
            None => {
                let ghost parts = seq![rest@];
                proof {
                    assert(split_all(rest@, ',') == parts);
                    assert(parts[0] == rest@);
                    assert(parts.skip(1) =~= Seq::<Seq<char>>::empty());
                }
                match cpus_of_item(rest.as_slice()) {
                    None => {
                        return None;
                    },
                    Some(cpus) => {
                        proof {
                            assert(cpu_items(parts.skip(1)) == Some(Seq::<u32>::empty()));
                            assert(cpus@ + Seq::<u32>::empty() =~= cpus@);
                        }
                        append_u32(&mut out, cpus.as_slice());
                        return Some(out);
                    },
                }
            },
        }
    }
}

/// One of the files of a PMU directory.
#[derive(Debug, Clone, Copy, PartialEq, Eq, Structural)]
pub enum PmuFile {
    Type,
    Cpumask,
    Cpus,
}

/// The name of a PMU file.
pub open spec fn file_name(f: PmuFile) -> Seq<char> {
    match f {
        PmuFile::Type => "type"@,
        PmuFile::Cpumask => "cpumask"@,
        PmuFile::Cpus => "cpus"@,
    }
}

/// The path of the file `f` of the PMU `pmu`.
pub open spec fn pmu_path(pmu: Seq<char>, f: PmuFile) -> Seq<char> {
    "/sys/bus/event_source/devices/"@ + pmu + "/"@ + file_name(f)
}

/// `i` is the first position of a PMU named `name`.
pub open spec fn first_named(pmus: Seq<PmuFiles>, name: Seq<char>, i: int) -> bool {
    0 <= i < pmus.len() && pmus[i].name@ == name && forall|j: int|
        0 <= j < i ==> pmus[j].name@ != name
}

/// What reading the file `f` of the PMU `pmu` gives: the file of the first PMU with that name,
/// or nothing when no PMU has that name.
pub open spec fn pmu_file(view: SysfsView, pmu: Seq<char>, f: PmuFile) -> FileRead {
    if exists|i: int| first_named(view.pmus@, pmu, i) {
        let p = view.pmus@[choose|i: int| first_named(view.pmus@, pmu, i)];
        match f {
            PmuFile::Type => p.type_file,
            PmuFile::Cpumask => p.cpumask_file,
            PmuFile::Cpus => p.cpus_file,
        }
    } else {
        FileRead::NotFound
    }
}

/// What [`read_type`] gives: the trimmed content of the `type` file, as a number.
pub open spec fn type_of(view: SysfsView, pmu: Seq<char>) -> Result<u32, PmuErrorKind> {
    match pmu_file(view, pmu, PmuFile::Type) {
        FileRead::Content(c) => match parsed_unsigned(trimmed(c@), 10, u32::MAX as nat) {
            Some(n) => Ok(n as u32),
            None => Err(PmuErrorKind::InvalidType),
        },
        _ => Err(PmuErrorKind::CannotRead),
    }
}

/// What [`read_cpumask`] and [`read_cpus`] give: no list when the file does not exist.
pub open spec fn cpu_file_of(view: SysfsView, pmu: Seq<char>, f: PmuFile) -> Result<Option<Seq<u32>>, PmuErrorKind> {
    match pmu_file(view, pmu, f) {
        FileRead::NotFound => Ok(None),
        FileRead::Failed => Err(PmuErrorKind::CannotRead),
        FileRead::Content(c) => match cpu_list(c@) {
            Some(cpus) => Ok(Some(cpus)),
            None => Err(PmuErrorKind::InvalidCpuList),
        },
    }
}

/// Whether an error carries the path `path`.
pub open spec fn error_path(e: PmuError) -> Seq<char> {
    match e {
        PmuError::CannotRead(p) => p@,
        PmuError::InvalidType(p) => p@,
        PmuError::InvalidCpuList(p) => p@,
    }
}

fn find_pmu(view: &SysfsView, pmu: &[char]) -> (r: Option<usize>)
    ensures
        r matches Some(i) ==> first_named(view.pmus@, pmu@, i as int),
        r is None ==> !exists|i: int| first_named(view.pmus@, pmu@, i),
{
    let mut i: usize = 0;
    while i < view.pmus.len()
        invariant
            0 <= i <= view.pmus@.len(),
            forall|j: int| 0 <= j < i ==> view.pmus@[j].name@ != pmu@,
        decreases view.pmus.len() - i,
    {
        let name = chars_of(view.pmus[i].name.as_str());
        if same_chars(name.as_slice(), pmu) {
            return Some(i);
        }
        i = i + 1;
    }
    None
}

proof fn lemma_first_named_unique(pmus: Seq<PmuFiles>, name: Seq<char>, i: int, k: int)
    requires
        first_named(pmus, name, i),
        first_named(pmus, name, k),
    ensures
        i == k,
{
    if i < k {
        assert(pmus[i].name@ != name);
    } else if k < i {
        assert(pmus[k].name@ != name);
    }
}

/// Reads the file `f` of the PMU `pmu` from the view.
fn read_file(view: &SysfsView, pmu: &[char], f: PmuFile) -> (r: FileRead)
    ensures
        r == pmu_file(*view, pmu@, f),
{
    match find_pmu(view, pmu) {
        None => FileRead::NotFound,
        Some(i) => {
            proof {
                let k = choose|k: int| first_named(view.pmus@, pmu@, k);
                lemma_first_named_unique(view.pmus@, pmu@, i as int, k);
            }
            let p = &view.pmus[i];
            match f {
                PmuFile::Type => p.type_file.duplicate(),
                PmuFile::Cpumask => p.cpumask_file.duplicate(),
                PmuFile::Cpus => p.cpus_file.duplicate(),
            }
        },
    }
}

/// The path of the file `f` of the PMU `pmu`.
fn path_of(pmu: &[char], f: PmuFile) -> (r: String)
    ensures
        r@ == pmu_path(pmu@, f),
{
    let mut v: Vec<char> = Vec::new();
    crate::text::push_str(&mut v, "/sys/bus/event_source/devices/");
    crate::text::push_all(&mut v, pmu);
    crate::text::push_str(&mut v, "/");
    match f {
        PmuFile::Type => crate::text::push_str(&mut v, "type"),
        PmuFile::Cpumask => crate::text::push_str(&mut v, "cpumask"),
        PmuFile::Cpus => crate::text::push_str(&mut v, "cpus"),
    }
    string_of(v.as_slice())
}

/// Reads a PMU's numeric perf `type`.
pub fn read_type(view: &SysfsView, pmu: &str) -> (r: Result<u32, PmuError>)
    ensures
        r matches Ok(t) ==> type_of(*view, pmu@) == Ok::<u32, PmuErrorKind>(t),
        r matches Err(e) ==> type_of(*view, pmu@) == Err::<u32, PmuErrorKind>(pmu_error_kind(e))
            && error_path(e) == pmu_path(pmu@, PmuFile::Type),
{
    let name = chars_of(pmu);
    read_type_chars(view, name.as_slice())
}

/// [`read_type`] on a character sequence.
pub fn read_type_chars(view: &SysfsView, pmu: &[char]) -> (r: Result<u32, PmuError>)
    ensures
        r matches Ok(t) ==> type_of(*view, pmu@) == Ok::<u32, PmuErrorKind>(t),
        r matches Err(e) ==> type_of(*view, pmu@) == Err::<u32, PmuErrorKind>(pmu_error_kind(e))
            && error_path(e) == pmu_path(pmu@, PmuFile::Type),
{
    match read_file(view, pmu, PmuFile::Type) {
        FileRead::Content(c) => {
            let chars = chars_of(c.as_str());
            let t = trim(chars.as_slice(), false);
            match parse_unsigned(t.as_slice(), 10, 0xffff_ffffu64) {
                Some(n) => Ok(n as u32),
                None => Err(PmuError::InvalidType(path_of(pmu, PmuFile::Type))),
            }
        },
        _ => Err(PmuError::CannotRead(path_of(pmu, PmuFile::Type))),
    }
}

fn read_cpu_list_file(view: &SysfsView, pmu: &[char], f: PmuFile) -> (r: Result<Option<Vec<u32>>, PmuError>)
    ensures
        r matches Ok(l) ==> cpu_file_of(*view, pmu@, f) == Ok::<_, PmuErrorKind>(
            match l {
                Some(v) => Some(v@),
                None => None,
            },
        ),
        r matches Err(e) ==> cpu_file_of(*view, pmu@, f) == Err::<Option<Seq<u32>>, _>(
            pmu_error_kind(e),
        ) && error_path(e) == pmu_path(pmu@, f),
{
    match read_file(view, pmu, f) {
        FileRead::NotFound => Ok(None),
        FileRead::Failed => Err(PmuError::CannotRead(path_of(pmu, f))),
        FileRead::Content(c) => match parse_cpu_list(c.as_str()) {
            Some(cpus) => Ok(Some(cpus)),
            None => Err(PmuError::InvalidCpuList(path_of(pmu, f))),
        },
    }
}

/// Reads a PMU's `cpumask`: `None` when the PMU has no such file (it is then task-attachable).
pub fn read_cpumask(view: &SysfsView, pmu: &str) -> (r: Result<Option<Vec<u32>>, PmuError>)
    ensures
        r matches Ok(l) ==> cpu_file_of(*view, pmu@, PmuFile::Cpumask) == Ok::<_, PmuErrorKind>(
            match l {
                Some(v) => Some(v@),
                None => None,
            },
        ),
        r matches Err(e) ==> cpu_file_of(*view, pmu@, PmuFile::Cpumask) == Err::<
            Option<Seq<u32>>,
            _,
        >(pmu_error_kind(e)) && error_path(e) == pmu_path(pmu@, PmuFile::Cpumask),
{
    let name = chars_of(pmu);
    read_cpu_list_file(view, name.as_slice(), PmuFile::Cpumask)
}

/// Reads a PMU's `cpus`: `None` when the PMU has no such file.
pub fn read_cpus(view: &SysfsView, pmu: &str) -> (r: Result<Option<Vec<u32>>, PmuError>)
    ensures
        r matches Ok(l) ==> cpu_file_of(*view, pmu@, PmuFile::Cpus) == Ok::<_, PmuErrorKind>(
            match l {
                Some(v) => Some(v@),
                None => None,
            },
        ),
        r matches Err(e) ==> cpu_file_of(*view, pmu@, PmuFile::Cpus) == Err::<Option<Seq<u32>>, _>(
            pmu_error_kind(e),
        ) && error_path(e) == pmu_path(pmu@, PmuFile::Cpus),
{
    let name = chars_of(pmu);
    read_cpu_list_file(view, name.as_slice(), PmuFile::Cpus)
}

/// The package shared by every CPU, given the package of each one (`None` when it could not be
/// read), or `None` if they span several packages, if one is unknown, or if there is none.
pub open spec fn common_package(packages: Seq<Option<u32>>) -> Option<u32> {
    if packages.len() > 0 && packages[0] is Some && forall|i: int|
        0 <= i < packages.len() ==> #[trigger] packages[i] == packages[0] {
        packages[0]
    } else {
        None
    }
}

/// The package shared by every CPU, given the package of each CPU in order.
pub fn single_package(packages: &[Option<u32>]) -> (r: Option<u32>)
    ensures
        r == common_package(packages@),
{
    if packages.len() == 0 {
        return None;
    }
    let first = match packages[0] {
        Some(p) => p,
        None => return None,
    };
    let mut i: usize = 1;
    while i < packages.len()
        invariant
            1 <= i <= packages@.len(),
            packages@[0] == Some(first),
            forall|j: int| 0 <= j < i ==> packages@[j] == Some(first),
        decreases packages.len() - i,
    {
        match packages[i] {
            Some(p) => {
                if p != first {
                    return None;
                }
            },
            None => {
                return None;
            },
        }
        i = i + 1;
    }
    Some(first)
}

/// A task-attachable core PMU.
#[derive(Debug, Clone, PartialEq, Eq)]
pub struct CorePmu {
    pub name: String,
    pub type_: u32,
    pub cpus: Vec<u32>,
    pub package: Option<u32>,
}

/// Lexicographic order on names (by code point, which is also the byte order of their UTF-8
/// encoding).
pub open spec fn name_le(a: Seq<char>, b: Seq<char>) -> bool
    decreases a.len(),
{
    if a.len() == 0 {
        true
    } else if b.len() == 0 {
        false
    } else if a[0] != b[0] {
        a[0] < b[0]
    } else {
        name_le(a.skip(1), b.skip(1))
    }
}

/// Whether `a` comes before `b` or is equal to it in name order.
pub fn names_in_order(a: &[char], b: &[char]) -> (r: bool)
    ensures
        r == name_le(a@, b@),
{
    let mut i: usize = 0;
    assert(a@.skip(0) =~= a@);
    assert(b@.skip(0) =~= b@);
    while i < a.len() && i < b.len() && a[i] == b[i]
        invariant
            0 <= i <= a@.len(),
            i <= b@.len(),
            name_le(a@.skip(i as int), b@.skip(i as int)) == name_le(a@, b@),
        decreases a.len() - i,
    {
        assert(a@.skip(i as int).skip(1) =~= a@.skip(i + 1));
        assert(b@.skip(i as int).skip(1) =~= b@.skip(i + 1));
        i = i + 1;
    }
    if i == a.len() {
        true
    } else if i == b.len() {
        false
    } else {
        a[i] < b[i]
    }
}

/// What a [`CorePmu`] describes.
pub struct CorePmuModel {
    pub name: Seq<char>,
    pub type_: u32,
    pub cpus: Seq<u32>,
    pub package: Option<u32>,
}

/// The model of a core PMU.
pub open spec fn core_model(p: CorePmu) -> CorePmuModel {
    CorePmuModel { name: p.name@, type_: p.type_, cpus: p.cpus@, package: p.package }
}

/// The models of a sequence of core PMUs.
pub open spec fn core_models(s: Seq<CorePmu>) -> Seq<CorePmuModel> {
    s.map_values(|p: CorePmu| core_model(p))
}

/// `x` inserted into `s` after every element whose name is not greater than its own, scanning
/// from the end (the insertion step of a stable insertion sort).
pub open spec fn insert_by_name(s: Seq<CorePmuModel>, x: CorePmuModel) -> Seq<CorePmuModel>
    decreases s.len(),
{
    if s.len() == 0 {
        seq![x]
    } else if name_le(s.last().name, x.name) {
        s.push(x)
    } else {
        insert_by_name(s.drop_last(), x).push(s.last())
    }
}

/// `s` stably sorted by name.
pub open spec fn sort_by_name(s: Seq<CorePmuModel>) -> Seq<CorePmuModel>
    decreases s.len(),
{
    if s.len() == 0 {
        s
    } else {
        insert_by_name(sort_by_name(s.drop_last()), s.last())
    }
}

/// Name order is total: of two names, one comes before the other or they are equal.
pub proof fn lemma_name_le_total(a: Seq<char>, b: Seq<char>)
    ensures
        name_le(a, b) || name_le(b, a),
    decreases a.len(),
{
    if a.len() > 0 && b.len() > 0 && a[0] == b[0] {
        lemma_name_le_total(a.skip(1), b.skip(1));
    }
}

/// Name order is transitive.
pub proof fn lemma_name_le_trans(a: Seq<char>, b: Seq<char>, c: Seq<char>)
    requires
        name_le(a, b),
        name_le(b, c),
    ensures
        name_le(a, c),
    decreases a.len(),
{
    if a.len() > 0 && b.len() > 0 && c.len() > 0 && a[0] == b[0] && b[0] == c[0] {
        lemma_name_le_trans(a.skip(1), b.skip(1), c.skip(1));
    }
}

proof fn lemma_insert_at(s: Seq<CorePmuModel>, x: CorePmuModel, k: int)
    requires
        0 <= k <= s.len(),
        k == 0 || name_le(s[k - 1].name, x.name),
        forall|j: int| k <= j < s.len() ==> !name_le(#[trigger] s[j].name, x.name),
    ensures
        insert_by_name(s, x) == s.take(k) + seq![x] + s.skip(k),
    decreases s.len(),
{
    if s.len() == 0 {
        assert(s.take(k) + seq![x] + s.skip(k) =~= seq![x]);
    } else if name_le(s.last().name, x.name) {
        assert(k == s.len());
        assert(s.take(k) + seq![x] + s.skip(k) =~= s.push(x));
    } else {
        let d = s.drop_last();
        assert(k < s.len());
        if k > 0 {
            assert(d[k - 1] == s[k - 1]);
        }
        assert forall|j: int| k <= j < d.len() implies !name_le(#[trigger] d[j].name, x.name) by {
            assert(d[j] == s[j]);
        }
        lemma_insert_at(d, x, k);
        assert(insert_by_name(s, x) == insert_by_name(d, x).push(s.last()));
        assert((d.take(k) + seq![x] + d.skip(k)).push(s.last()) =~= s.take(k) + seq![x] + s.skip(k));
    }
}

fn insert_sorted(out: &mut Vec<CorePmu>, x: CorePmu)
    ensures
        core_models(final(out)@) == insert_by_name(core_models(old(out)@), core_model(x)),
{
    let xname = chars_of(x.name.as_str());
    let ghost m = core_models(out@);
    let mut k: usize = out.len();
    while k > 0 && !names_in_order(chars_of(out[k - 1].name.as_str()).as_slice(), xname.as_slice())
        invariant
            0 <= k <= out@.len(),
            out@ == old(out)@,
            m == core_models(out@),
            xname@ == x.name@,
            forall|j: int| k <= j < m.len() ==> !name_le(#[trigger] m[j].name, x.name@),
        decreases k,
    {
        k = k - 1;
    }
    proof {
        lemma_insert_at(m, core_model(x), k as int);
    }
    out.insert(k, x);
    assert(core_models(out@) =~= m.take(k as int) + seq![core_model(x)] + m.skip(k as int));
}

/// The core PMU of a view entry, if it is one: no `cpumask`, a `cpus` list and a `type`.
pub open spec fn core_pmu_of(view: SysfsView, name: Seq<char>) -> Option<(u32, Seq<u32>)> {
    match (cpu_file_of(view, name, PmuFile::Cpumask), cpu_file_of(view, name, PmuFile::Cpus), type_of(view, name)) {
        (Ok(None), Ok(Some(cpus)), Ok(t)) => Some((t, cpus)),
        _ => None,
    }
}

/// The package named by the content of a CPU's `topology/physical_package_id` file.
pub open spec fn package_id_of(content: Seq<char>) -> Option<u32> {
    match parsed_unsigned(trimmed(content), 10, u32::MAX as nat) {
        Some(n) => Some(n as u32),
        None => None,
    }
}

/// Reads the content of a CPU's `topology/physical_package_id` file: a number, surrounding
/// whitespace ignored.
pub fn parse_package_id(content: &str) -> (r: Option<u32>)
    ensures
        r == package_id_of(content@),
{
    let chars = chars_of(content);
    let t = trim(chars.as_slice(), false);
    match parse_unsigned(t.as_slice(), 10, 0xffff_ffffu64) {
        Some(n) => Some(n as u32),
        None => None,
    }
}

/// The package of `cpu` according to the view: the first entry for that CPU.
pub open spec fn package_in(packages: Seq<CpuPackage>, cpu: u32) -> Option<u32>
    decreases packages.len(),
{
    if packages.len() == 0 {
        None
    } else if packages[0].cpu == cpu {
        packages[0].package
    } else {
        package_in(packages.skip(1), cpu)
    }
}

/// The package of each CPU of `cpus`.
pub open spec fn packages_of(view: SysfsView, cpus: Seq<u32>) -> Seq<Option<u32>> {
    cpus.map_values(|c: u32| package_in(view.packages@, c))
}

/// The package of `cpu` according to the view.
pub fn package_of(view: &SysfsView, cpu: u32) -> (r: Option<u32>)
    ensures
        r == package_in(view.packages@, cpu),
{
    let mut i: usize = 0;
    assert(view.packages@.skip(0) =~= view.packages@);
    while i < view.packages.len()
        invariant
            0 <= i <= view.packages@.len(),
            package_in(view.packages@.skip(i as int), cpu) == package_in(view.packages@, cpu),
        decreases view.packages.len() - i,
    {
        assert(view.packages@.skip(i as int).skip(1) =~= view.packages@.skip(i + 1));
        if view.packages[i].cpu == cpu {
            return view.packages[i].package;
        }
        i = i + 1;
    }
    None
}

/// The package shared by all of `cpus`, according to the view.
pub fn package_of_cpus(view: &SysfsView, cpus: &[u32]) -> (r: Option<u32>)
    ensures
        r == common_package(packages_of(*view, cpus@)),
{
    let mut packages: Vec<Option<u32>> = Vec::new();
    let mut i: usize = 0;
    while i < cpus.len()
        invariant
            0 <= i <= cpus@.len(),
            packages@ == packages_of(*view, cpus@.take(i as int)),
        decreases cpus.len() - i,
    {
        packages.push(package_of(view, cpus[i]));
        i = i + 1;
        assert(packages@ =~= packages_of(*view, cpus@.take(i as int)));
    }
    assert(cpus@.take(cpus@.len() as int) =~= cpus@);
    single_package(packages.as_slice())
}

/// The core PMUs found in the view entries `pmus`, in entry order.
pub open spec fn core_pmus_in(view: SysfsView, pmus: Seq<PmuFiles>) -> Seq<CorePmuModel>
    decreases pmus.len(),
{
    if pmus.len() == 0 {
        Seq::empty()
    } else {
        let before = core_pmus_in(view, pmus.drop_last());
        let name = pmus.last().name@;
        match core_pmu_of(view, name) {
            Some((t, cpus)) => before.push(
                CorePmuModel {
                    name,
                    type_: t,
                    cpus,
                    package: common_package(packages_of(view, cpus)),
                },
            ),
            None => before,
        }
    }
}

/// The task-attachable core PMUs of the view, sorted by name.
pub open spec fn core_pmus_of(view: SysfsView) -> Seq<CorePmuModel> {
    sort_by_name(core_pmus_in(view, view.pmus@))
}

/// Whether the names of `s` are in order.
pub open spec fn names_sorted(s: Seq<CorePmuModel>) -> bool {
    forall|i: int, j: int| 0 <= i < j < s.len() ==> name_le(#[trigger] s[i].name, #[trigger] s[j].name)
}

proof fn lemma_insert_by_name_sorted(s: Seq<CorePmuModel>, x: CorePmuModel)
    requires
        names_sorted(s),
    ensures
        names_sorted(insert_by_name(s, x)),
        insert_by_name(s, x).to_multiset() =~= s.to_multiset().insert(x),
        forall|i: int|
            0 <= i < insert_by_name(s, x).len() ==> #[trigger] insert_by_name(s, x)[i] == x || s.contains(
                insert_by_name(s, x)[i],
            ),
    decreases s.len(),
{
    broadcast use vstd::seq_lib::group_to_multiset_ensures;

    let r = insert_by_name(s, x);
    if s.len() == 0 {
        assert(r =~= seq![x]);
        assert(seq![x] =~= Seq::<CorePmuModel>::empty().push(x));
    } else if name_le(s.last().name, x.name) {
        assert forall|i: int, j: int| 0 <= i < j < r.len() implies name_le(#[trigger] r[i].name, #[trigger] r[j].name) by {
            if j == s.len() {
                if i < s.len() - 1 {
                    assert(name_le(s[i].name, s[s.len() - 1].name));
                    lemma_name_le_trans(s[i].name, s.last().name, x.name);
                }
            } else {
                assert(name_le(s[i].name, s[j].name));
            }
        }
        assert forall|i: int| 0 <= i < r.len() implies #[trigger] r[i] == x || s.contains(r[i]) by {
            if i < s.len() {
                assert(s[i] == r[i]);
            }
        }
    } else {
        let d = s.drop_last();
        assert forall|i: int, j: int| 0 <= i < j < d.len() implies name_le(#[trigger] d[i].name, #[trigger] d[j].name) by {
            assert(d[i] == s[i] && d[j] == s[j]);
        }
        lemma_insert_by_name_sorted(d, x);
        let t = insert_by_name(d, x);
        assert(r == t.push(s.last()));
        lemma_name_le_total(s.last().name, x.name);
        assert forall|i: int| 0 <= i < t.len() implies name_le(#[trigger] t[i].name, s.last().name) by {
            if t[i] != x {
                assert(d.contains(t[i]));
                let m = choose|m: int| 0 <= m < d.len() && d[m] == t[i];
                assert(s[m] == d[m]);
                assert(name_le(s[m].name, s[s.len() - 1].name));
            }
        }
        assert forall|i: int, j: int| 0 <= i < j < r.len() implies name_le(#[trigger] r[i].name, #[trigger] r[j].name) by {
            if j == t.len() {
                assert(r[i] == t[i]);
            } else {
                assert(r[i] == t[i] && r[j] == t[j]);
            }
        }
        assert forall|i: int| 0 <= i < r.len() implies #[trigger] r[i] == x || s.contains(r[i]) by {
            if i == t.len() {
                assert(s[s.len() - 1] == r[i]);
            } else {
                assert(r[i] == t[i]);
                if t[i] != x {
                    let m = choose|m: int| 0 <= m < d.len() && d[m] == t[i];
                    assert(s[m] == d[m]);
                }
            }
        }
        assert(s == d.push(s.last()));
        assert(r.to_multiset() =~= t.to_multiset().insert(s.last()));
        assert(s.to_multiset() =~= d.to_multiset().insert(s.last()));
    }
}

proof fn lemma_sort_by_name(s: Seq<CorePmuModel>)
    ensures
        names_sorted(sort_by_name(s)),
        sort_by_name(s).to_multiset() =~= s.to_multiset(),
    decreases s.len(),
{
    broadcast use vstd::seq_lib::group_to_multiset_ensures;

    if s.len() > 0 {
        lemma_sort_by_name(s.drop_last());
        lemma_insert_by_name_sorted(sort_by_name(s.drop_last()), s.last());
        assert(s == s.drop_last().push(s.last()));
    }
}

/// The core PMUs of a view come sorted by name, and they are exactly the core PMUs found among
/// its entries.
pub proof fn lemma_core_pmus_sorted(view: SysfsView)
    ensures
        names_sorted(core_pmus_of(view)),
        core_pmus_of(view).to_multiset() =~= core_pmus_in(view, view.pmus@).to_multiset(),
{
    lemma_sort_by_name(core_pmus_in(view, view.pmus@));
}

/// Enumerates the task-attachable core PMUs (a `cpus` list, a `type`, and no `cpumask`), sorted
/// by name.
pub fn core_pmus(view: &SysfsView) -> (r: Vec<CorePmu>)
    ensures
        core_models(r@) == core_pmus_of(*view),
{
    let mut out: Vec<CorePmu> = Vec::new();
    let mut i: usize = 0;
    while i < view.pmus.len()
        invariant
            0 <= i <= view.pmus@.len(),
            core_models(out@) == sort_by_name(core_pmus_in(*view, view.pmus@.take(i as int))),
        decreases view.pmus.len() - i,
    {
        let ghost taken = view.pmus@.take(i + 1);
        assert(taken.drop_last() =~= view.pmus@.take(i as int));
        let name = chars_of(view.pmus[i].name.as_str());
        let mask = read_cpu_list_file(view, name.as_slice(), PmuFile::Cpumask);
        let cpus = read_cpu_list_file(view, name.as_slice(), PmuFile::Cpus);
        let t = read_type_chars(view, name.as_slice());
        match (mask, cpus, t) {
            (Ok(None), Ok(Some(cpus)), Ok(t)) => {
                let package = package_of_cpus(view, cpus.as_slice());
                let p = CorePmu { name: view.pmus[i].name.clone(), type_: t, cpus, package };
                proof {
                    let before = core_pmus_in(*view, view.pmus@.take(i as int));
                    assert(taken.last() == view.pmus@[i as int]);
                    assert(core_pmus_in(*view, taken) == before.push(core_model(p)));
                    assert(before.push(core_model(p)).drop_last() =~= before);
                }
                insert_sorted(&mut out, p);
            },
            (mask, cpus, t) => {
                proof {
                    assert(taken.last() == view.pmus@[i as int]);
                    assert(core_pmu_of(*view, name@) is None);
                }
            },
        }
        i = i + 1;
    }
    assert(view.pmus@.take(view.pmus@.len() as int) =~= view.pmus@);
    out
}

/// The path of the online CPU list.
pub open spec fn online_path() -> Seq<char> {
    "/sys/devices/system/cpu/online"@
}

/// What [`online_cpus`] gives.
pub open spec fn online_of(view: SysfsView) -> Result<Seq<u32>, PmuErrorKind> {
    match view.online {
        FileRead::Content(c) => match cpu_list(c@) {
            Some(cpus) => Ok(cpus),
            None => Err(PmuErrorKind::InvalidCpuList),
        },
        _ => Err(PmuErrorKind::CannotRead),
    }
}

/// The online CPUs.
pub fn online_cpus(view: &SysfsView) -> (r: Result<Vec<u32>, PmuError>)
    ensures
        r matches Ok(v) ==> online_of(*view) == Ok::<_, PmuErrorKind>(v@),
        r matches Err(e) ==> online_of(*view) == Err::<Seq<u32>, _>(pmu_error_kind(e))
            && error_path(e) == online_path(),
{
    match &view.online {
        FileRead::Content(c) => match parse_cpu_list(c.as_str()) {
            Some(cpus) => Ok(cpus),
            None => Err(PmuError::InvalidCpuList("/sys/devices/system/cpu/online".to_owned())),
        },
        _ => Err(PmuError::CannotRead("/sys/devices/system/cpu/online".to_owned())),
    }
}

} // verus!
