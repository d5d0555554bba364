//! EFI System Partition (ESP) handling: size rendering, well-known
//! bootloaders, and finding where the ESP is mounted.
use vstd::prelude::*;

use crate::error::AppError;
use crate::host::{efi_error, efi_error_text, CommandRun, Platform};
use crate::boot::partitions::{lowercased, to_lowercase};
use crate::text::{
    concat, decimal, format_decimal, push_char, push_str, same_text, trim_space, trim_space_exec,
};

verus! {

/// Rounds `n / d` to the nearest integer, ties to the even neighbour.
pub open spec fn round_half_even_div(n: nat, d: nat) -> nat
    recommends
        d > 0,
{
    let q = n / d;
    let r = n % d;
    if 2 * r < d {
        q
    } else if 2 * r > d {
        q + 1
    } else if q % 2 == 0 {
        q
    } else {
        q + 1
    }
}

/// How many low bits a `u64` loses when converted to `f64` (whose
/// significand holds 53 bits).
pub open spec fn f64_shift(b: nat) -> nat
    decreases b,
{
    if b < 0x20_0000_0000_0000 {
        0
    } else {
        1 + f64_shift(b / 2)
    }
}

/// Two to the power `n`.
pub open spec fn pow2(n: nat) -> nat
    decreases n,
{
    if n == 0 {
        1
    } else {
        2 * pow2((n - 1) as nat)
    }
}

/// The exact value of `b as f64`: `b` rounded to 53 significant bits, ties
/// to even.
pub open spec fn f64_value(b: nat) -> nat {
    round_half_even_div(b, pow2(f64_shift(b))) * pow2(f64_shift(b))
}

/// A number of tenths written with one decimal, e.g. 15 is "1.5".
pub open spec fn one_decimal(tenths: nat) -> Seq<char> {
    decimal(tenths / 10).push('.').push((('0' as nat) + tenths % 10) as char)
}

/// `b as f64 / unit as f64` printed with one decimal (`{:.1}`): the exact
/// quotient rounded to tenths, ties to even.
pub open spec fn size_in_unit(b: nat, unit: nat) -> Seq<char> {
    one_decimal(round_half_even_div(f64_value(b) * 10, unit))
}

/// The text that `format_size` produces for a number of bytes.
pub open spec fn size_text(bytes: u64) -> Seq<char> {
    if bytes >= 0x100_0000_0000 {
        size_in_unit(bytes as nat, 0x100_0000_0000) + " TB"@
    } else if bytes >= 0x4000_0000 {
        size_in_unit(bytes as nat, 0x4000_0000) + " GB"@
    } else if bytes >= 0x10_0000 {
        size_in_unit(bytes as nat, 0x10_0000) + " MB"@
    } else if bytes >= 0x400 {
        size_in_unit(bytes as nat, 0x400) + " KB"@
    } else {
        decimal(bytes as nat) + " B"@
    }
}

fn round_half_even_div_exec(n: u128, d: u128) -> (r: u128)
    requires
        0 < d <= 0x1_0000_0000_0000_0000,
    ensures
        r == round_half_even_div(n as nat, d as nat),
{
    let q = n / d;
    let r = n % d;
    if 2 * r < d {
        return q;
    }
    assert(d >= 2);
    assert(q < 0xffff_ffff_ffff_ffff_ffff_ffff_ffff_ffff) by (nonlinear_arith)
        requires
            q == n / d,
            d >= 2,
            n <= 0xffff_ffff_ffff_ffff_ffff_ffff_ffff_ffff,
    ;
    if 2 * r < d {
        q
    } else if 2 * r > d {
        q + 1
    } else if q % 2 == 0 {
        q
    } else {
        q + 1
    }
}

/// The exact value of `b as f64`.
fn f64_value_exec(b: u64) -> (v: u128)
    ensures
        v == f64_value(b as nat),
        v <= b + 4096,
{
    let mut t: u64 = b;
    let mut p: u128 = 1;
    let ghost mut s: nat = 0;
    while t >= 0x20_0000_0000_0000
        invariant
            p == pow2(s),
            t == (b as nat) / (p as nat),
            f64_shift(b as nat) == s + f64_shift(t as nat),
            0 < p < 4096,
            t as nat * p as nat <= b as nat,
        decreases t,
    {
        proof {
            vstd::arithmetic::div_mod::lemma_div_denominator(b as int, p as int, 2);
            assert(p < 2048) by (nonlinear_arith)
                requires
                    t as nat * p as nat <= b as nat,
                    t >= 0x20_0000_0000_0000,
                    b < 0x1_0000_0000_0000_0000,
            ;
            assert((t as nat / 2) * (p as nat * 2) <= t as nat * p as nat) by (nonlinear_arith);
        }
        t = t / 2;
        p = p * 2;
        proof {
            s = s + 1;
        }
    }
    assert(f64_shift(t as nat) == 0);
    let q = round_half_even_div_exec(b as u128, p);
    proof {
        vstd::arithmetic::div_mod::lemma_fundamental_div_mod(b as int, p as int);
        assert(q <= (b as nat) / (p as nat) + 1);
        assert(q * p <= b + p) by (nonlinear_arith)
            requires
                q <= (b as nat) / (p as nat) + 1,
                (b as nat) == (p as nat) * ((b as nat) / (p as nat)) + (b as nat) % (p as nat),
                (b as nat) % (p as nat) >= 0,
                p > 0,
        ;
    }
    q * p
}

/// `tenths` written with one decimal.
fn format_one_decimal(tenths: u128) -> (s: String)
    ensures
        s@ == one_decimal(tenths as nat),
{
    let mut s = format_decimal(tenths / 10);
    push_char(&mut s, '.');
    push_char(&mut s, ((48u8 + ((tenths % 10) as u8)) as char));
    s
}

/// Formats a byte count in human-readable form: `"512 B"`, `"1.0 KB"`,
/// `"1.5 MB"`, `"2.0 GB"`, `"1.0 TB"`.
pub fn format_size(bytes: u64) -> (s: String)
    ensures
        s@ == size_text(bytes),
{
    let (unit, suffix): (u128, &str) = if bytes >= 0x100_0000_0000 {
        (0x100_0000_0000, " TB")
    } else if bytes >= 0x4000_0000 {
        (0x4000_0000, " GB")
    } else if bytes >= 0x10_0000 {
        (0x10_0000, " MB")
    } else if bytes >= 0x400 {
        (0x400, " KB")
    } else {
        let digits = format_decimal(bytes as u128);
        return concat(digits.as_str(), " B");
    };
    let v = f64_value_exec(bytes);
    let tenths = round_half_even_div_exec(v * 10, unit);
    let mut s = format_one_decimal(tenths);
    push_str(&mut s, suffix);
    s
}

// --- Bootloaders ---

/// Information about a bootloader found on the ESP.
#[derive(Debug)]
pub struct BootloaderInfo {
    /// Path relative to ESP root (e.g., `\EFI\BOOT\BOOTX64.EFI`).
    pub path: String,
    /// Identified OS or role (e.g., "UEFI Default Fallback", "Windows", "Ubuntu").
    pub identity: String,
    /// Whether this is the UEFI default fallback bootloader.
    pub is_default: bool,
    /// File size in human-readable form.
    pub size: Option<String>,
    /// Last modified timestamp.
    pub modified: Option<String>,
}

/// The well-known EFI bootloaders: path relative to the ESP root, identity,
/// and whether it is a UEFI default fallback loader.
pub open spec fn known_loader_table() -> Seq<(Seq<char>, Seq<char>, bool)> {
    seq![
        ("EFI\\BOOT\\BOOTX64.EFI"@, "UEFI Default Fallback (x64)"@, true),
        ("EFI\\BOOT\\BOOTIA32.EFI"@, "UEFI Default Fallback (IA-32)"@, true),
        ("EFI\\BOOT\\BOOTAA64.EFI"@, "UEFI Default Fallback (ARM64)"@, true),
        ("EFI\\Microsoft\\Boot\\bootmgfw.efi"@, "Windows Boot Manager"@, false),
        ("EFI\\ubuntu\\shimx64.efi"@, "Ubuntu (shim)"@, false),
        ("EFI\\ubuntu\\grubx64.efi"@, "Ubuntu (GRUB)"@, false),
        ("EFI\\fedora\\shimx64.efi"@, "Fedora (shim)"@, false),
        ("EFI\\fedora\\grubx64.efi"@, "Fedora (GRUB)"@, false),
        ("EFI\\debian\\shimx64.efi"@, "Debian (shim)"@, false),
        ("EFI\\debian\\grubx64.efi"@, "Debian (GRUB)"@, false),
        ("EFI\\arch\\grubx64.efi"@, "Arch Linux (GRUB)"@, false),
        ("EFI\\opensuse\\shimx64.efi"@, "openSUSE (shim)"@, false),
        ("EFI\\opensuse\\grubx64.efi"@, "openSUSE (GRUB)"@, false),
        ("EFI\\centos\\shimx64.efi"@, "CentOS (shim)"@, false),
        ("EFI\\rocky\\shimx64.efi"@, "Rocky Linux (shim)"@, false),
        ("EFI\\systemd\\systemd-bootx64.efi"@, "systemd-boot"@, false),
        ("EFI\\refind\\refind_x64.efi"@, "rEFInd"@, false),
    ]
}

/// The text views of a table of loaders.
pub open spec fn loader_views(v: Seq<(&'static str, &'static str, bool)>) -> Seq<(Seq<char>, Seq<char>, bool)> {
    Seq::new(v.len(), |i: int| (v[i].0@, v[i].1@, v[i].2))
}

/// The well-known EFI bootloader paths (relative to the ESP root) and
/// their identities, with whether each is a UEFI default fallback loader.
pub fn known_loaders() -> (r: Vec<(&'static str, &'static str, bool)>)
    ensures
        loader_views(r@) == known_loader_table(),
{
    let r = vec![
        ("EFI\\BOOT\\BOOTX64.EFI", "UEFI Default Fallback (x64)", true),
        ("EFI\\BOOT\\BOOTIA32.EFI", "UEFI Default Fallback (IA-32)", true),
        ("EFI\\BOOT\\BOOTAA64.EFI", "UEFI Default Fallback (ARM64)", true),
        ("EFI\\Microsoft\\Boot\\bootmgfw.efi", "Windows Boot Manager", false),
        ("EFI\\ubuntu\\shimx64.efi", "Ubuntu (shim)", false),
        ("EFI\\ubuntu\\grubx64.efi", "Ubuntu (GRUB)", false),
        ("EFI\\fedora\\shimx64.efi", "Fedora (shim)", false),
        ("EFI\\fedora\\grubx64.efi", "Fedora (GRUB)", false),
        ("EFI\\debian\\shimx64.efi", "Debian (shim)", false),
        ("EFI\\debian\\grubx64.efi", "Debian (GRUB)", false),
        ("EFI\\arch\\grubx64.efi", "Arch Linux (GRUB)", false),
        ("EFI\\opensuse\\shimx64.efi", "openSUSE (shim)", false),
        ("EFI\\opensuse\\grubx64.efi", "openSUSE (GRUB)", false),
        ("EFI\\centos\\shimx64.efi", "CentOS (shim)", false),
        ("EFI\\rocky\\shimx64.efi", "Rocky Linux (shim)", false),
        ("EFI\\systemd\\systemd-bootx64.efi", "systemd-boot", false),
        ("EFI\\refind\\refind_x64.efi", "rEFInd", false),
    ];
    assert(loader_views(r@) =~= known_loader_table());
    r
}

/// What the caller found of a loader file on the ESP: its size and
/// last-modified time when its metadata could be read.
#[derive(Debug)]
pub struct LoaderFile {
    pub size: Option<u64>,
    pub modified: Option<String>,
}

/// The value of a bootloader record.
pub struct BootloaderInfoView {
    pub path: Seq<char>,
    pub identity: Seq<char>,
    pub is_default: bool,
    pub size: Option<Seq<char>>,
    pub modified: Option<Seq<char>>,
}

impl View for BootloaderInfo {
    type V = BootloaderInfoView;

    open spec fn view(&self) -> BootloaderInfoView {
        BootloaderInfoView {
            path: self.path@,
            identity: self.identity@,
            is_default: self.is_default,
            size: match self.size {
                Some(s) => Some(s@),
                None => None,
            },
            modified: match self.modified {
                Some(s) => Some(s@),
                None => None,
            },
        }
    }
}

/// The record of the known loader `l` found as `f`: its path from the ESP
/// root with a leading backslash, and the file's size in readable form.
pub open spec fn found_loader(l: (Seq<char>, Seq<char>, bool), f: LoaderFile) -> BootloaderInfoView {
    BootloaderInfoView {
        path: seq!['\\'] + l.0,
        identity: l.1,
        is_default: l.2,
        size: match f.size {
            Some(b) => Some(size_text(b)),
            None => None,
        },
        modified: match f.modified {
            Some(s) => Some(s@),
            None => None,
        },
    }
}

/// The records of the first `n` known loaders that were found, in table
/// order; `found[i]` says whether and how the `i`-th one was found.
pub open spec fn scanned(found: Seq<Option<LoaderFile>>, n: int) -> Seq<BootloaderInfoView>
    decreases n,
{
    if n <= 0 {
        Seq::empty()
    } else {
        let rest = scanned(found, n - 1);
        if n - 1 < found.len() && found[n - 1] is Some {
            rest.push(found_loader(known_loader_table()[n - 1], found[n - 1]->Some_0))
        } else {
            rest
        }
    }
}

/// The views of a vector of bootloader records.
pub open spec fn loader_info_views(v: Seq<BootloaderInfo>) -> Seq<BootloaderInfoView> {
    Seq::new(v.len(), |i: int| v[i]@)
}

/// The known bootloaders found on the ESP, in table order; `found[i]` is
/// what the caller found of the `i`-th entry of `known_loaders()`.
pub fn scan_esp_bootloaders(found: &Vec<Option<LoaderFile>>) -> (r: Vec<BootloaderInfo>)
    ensures
        loader_info_views(r@) == scanned(found@, known_loader_table().len() as int),
{
    let table = known_loaders();
    let mut r: Vec<BootloaderInfo> = Vec::new();
    let mut i: usize = 0;
    while i < table.len()
        invariant
            i <= table@.len(),
            loader_views(table@) == known_loader_table(),
            loader_info_views(r@) == scanned(found@, i as int),
        decreases table.len() - i,
    {
        if i < found.len() {
            match &found[i] {
                Some(f) => {
                    let (rel, identity, is_default) = table[i];
                    let mut path = String::new();
                    push_char(&mut path, '\\');
                    push_str(&mut path, rel);
                    let size = match f.size {
                        Some(b) => Some(format_size(b)),
                        None => None,
                    };
                    let modified = match &f.modified {
                        Some(m) => Some(m.clone()),
                        None => None,
                    };
                    let info = BootloaderInfo {
                        path,
                        identity: String::from_str(identity),
                        is_default,
                        size,
                        modified,
                    };
                    proof {
                        assert(known_loader_table()[i as int] == loader_views(table@)[i as int]);
                        assert(info@.path =~= seq!['\\'] + known_loader_table()[i as int].0);
                        assert(info@ == found_loader(known_loader_table()[i as int], *f));
                    }
                    let ghost prev = r@;
                    let ghost iv = info@;
                    r.push(info);
                    assert(loader_info_views(r@) =~= loader_info_views(prev).push(iv));
                },
                None => {},
            }
        }
        i = i + 1;
    }
    r
}

/// `name` and `component` are the same path component when case is
/// ignored: `str::to_lowercase` makes them equal.
pub open spec fn same_component(name: Seq<char>, component: Seq<char>) -> bool {
    lowercased(name) == lowercased(component)
}

/// The index of the first of a directory's entry names that is the path
/// component `component` with case ignored, if any is.
pub fn find_component(names: &Vec<String>, component: &str) -> (r: Option<usize>)
    ensures
        match r {
            Some(i) => {
                &&& i < names.len()
                &&& same_component(names@[i as int]@, component@)
                &&& forall|j: int| 0 <= j < i ==> !same_component(#[trigger] names@[j]@, component@)
            },
            None => forall|j: int|
                0 <= j < names.len() ==> !same_component(#[trigger] names@[j]@, component@),
        },
{
    let target = to_lowercase(component);
    let mut i: usize = 0;
    while i < names.len()
        invariant
            i <= names.len(),
            target@ == lowercased(component@),
            forall|j: int| 0 <= j < i ==> !same_component(#[trigger] names@[j]@, component@),
        decreases names.len() - i,
    {
        let name = to_lowercase(names[i].as_str());
        if same_text(name.as_str(), target.as_str()) {
            return Some(i);
        }
        i = i + 1;
    }
    None
}

// --- Finding the mounted ESP ---

/// The directories where Linux usually mounts the ESP, in the order they
/// are tried.
pub open spec fn linux_candidate_table() -> Seq<Seq<char>> {
    seq!["/boot/efi"@, "/efi"@, "/boot"@]
}

/// The directories where Linux usually mounts the ESP, in the order they
/// are tried.
pub fn linux_esp_candidates() -> (r: Vec<&'static str>)
    ensures
        r@.len() == 3,
        forall|i: int| 0 <= i < 3 ==> #[trigger] r@[i]@ == linux_candidate_table()[i],
{
    vec!["/boot/efi", "/efi", "/boot"]
}

/// What the caller reports when asked (see `EspQuery`).
#[derive(Debug)]
pub enum AccessPaths {
    /// The access paths, each with whether it holds an `EFI` directory.
    List(Vec<(String, bool)>),
    /// A single access path.
    Single(String),
    /// No output, or output that is neither a list of paths nor one path.
    Unusable,
}

/// What the access-path query printed, as JSON: a list of paths, one path,
/// or neither.
#[derive(Debug)]
pub enum AccessPathsJson {
    List(Vec<String>),
    Single(String),
    Neither,
}

/// The value of what the access-path query printed.
pub enum AccessPathsJsonView {
    List(Seq<Seq<char>>),
    Single(Seq<char>),
    Neither,
}

impl View for AccessPathsJson {
    type V = AccessPathsJsonView;

    open spec fn view(&self) -> AccessPathsJsonView {
        match self {
            AccessPathsJson::List(ps) => AccessPathsJsonView::List(Seq::new(ps@.len(), |i: int| ps@[i]@)),
            AccessPathsJson::Single(p) => AccessPathsJsonView::Single(p@),
            AccessPathsJson::Neither => AccessPathsJsonView::Neither,
        }
    }
}

/// What serde_json reads from a text: an array of strings, else a string,
/// else neither.
pub uninterp spec fn access_paths_json(text: Seq<char>) -> AccessPathsJsonView;

/// Reads the access-path query's output.
///
/// Trusted: tries `serde_json::from_str::<Vec<String>>`, then
/// `serde_json::from_str::<String>`; the result is named
/// `access_paths_json`.
#[verifier::external_body]
fn parse_access_paths_json(text: &str) -> (r: AccessPathsJson)
    ensures
        r@ == access_paths_json(text@),
{
    if let Ok(ps) = serde_json::from_str::<Vec<String>>(text) {
        AccessPathsJson::List(ps)
    } else if let Ok(p) = serde_json::from_str::<String>(text) {
        AccessPathsJson::Single(p)
    } else {
        AccessPathsJson::Neither
    }
}

/// The access paths in what `Get-Partition ... | Select-Object
/// -ExpandProperty AccessPaths | ConvertTo-Json` printed: neither for blank
/// output, else what its trimmed text reads as.
pub fn windows_access_paths(stdout: &str) -> (r: AccessPathsJson)
    ensures
        trim_space(stdout@).len() == 0 ==> r@ == AccessPathsJsonView::Neither,
        trim_space(stdout@).len() > 0 ==> r@ == access_paths_json(trim_space(stdout@)),
{
    let trimmed = trim_space_exec(stdout);
    if trimmed.as_str().unicode_len() == 0 {
        AccessPathsJson::Neither
    } else {
        parse_access_paths_json(trimmed.as_str())
    }
}

/// What the search for the mounted ESP needs to know next.
#[derive(Clone, Copy, PartialEq, Eq, Structural, Debug)]
pub enum EspQuery {
    /// Linux: for each of `linux_esp_candidates()`, whether it holds an
    /// `EFI` or `efi` directory.
    LinuxCandidates,
    /// Linux: the lines of `findmnt -n -o TARGET -t vfat`, trimmed, each
    /// with whether it holds an `EFI` or `efi` directory.
    LinuxMounts,
    /// Windows: the access paths of the ESP partitions from `Get-Partition`.
    WindowsAccessPaths,
    /// Windows: the outcome of `mountvol S: /S`, with whether `S:\EFI`
    /// exists.
    WindowsMountvol,
}

/// The answer to an `EspQuery`.
#[derive(Debug)]
pub enum EspProbe {
    LinuxCandidates(Vec<bool>),
    /// `None` when `findmnt` could not be run or failed.
    LinuxMounts(Option<Vec<(String, bool)>>),
    WindowsAccessPaths(CommandRun<AccessPaths>),
    WindowsMountvol(CommandRun<bool>),
}

/// Where the search for the mounted ESP stands.
#[derive(Debug)]
pub enum EspSearch {
    /// The ESP is mounted here.
    Found(String),
    /// The search needs this answered.
    Ask(EspQuery),
    /// The ESP could not be found.
    Failed(AppError),
}

/// The message when Linux has no mounted ESP.
pub open spec fn linux_not_found_text() -> Seq<char> {
    "Could not find mounted ESP. Check that it is mounted at /boot/efi or /efi."@
}

/// The message when Windows has no mounted ESP and mounting one failed.
pub open spec fn windows_not_found_text() -> Seq<char> {
    "Could not find or mount the ESP partition. Try running as administrator."@
}

/// The path names a drive: a single-byte first character followed by a
/// colon.
pub open spec fn has_drive_letter(p: Seq<char>) -> bool {
    p.len() >= 2 && (p[0] as u32) < 128 && p[1] == ':'
}

/// The index of the first pair whose flag is set.
pub open spec fn first_flagged(v: Seq<(String, bool)>) -> Option<int> {
    if exists|i: int| 0 <= i < v.len() && v[i].1 {
        Some(choose|i: int| 0 <= i < v.len() && v[i].1 && forall|j: int| 0 <= j < i ==> !v[j].1)
    } else {
        None
    }
}

/// The index of the first path that names a drive.
pub open spec fn first_drive(v: Seq<(String, bool)>) -> Option<int> {
    if exists|i: int| 0 <= i < v.len() && has_drive_letter(v[i].0@) {
        Some(
            choose|i: int|
                0 <= i < v.len() && has_drive_letter(v[i].0@) && forall|j: int|
                    0 <= j < i ==> !has_drive_letter(v[j].0@),
        )
    } else {
        None
    }
}

/// The index of the first of the three Linux candidates that holds an
/// `EFI` directory, by the flags the caller reported.
pub open spec fn first_candidate(flags: Seq<bool>) -> Option<int> {
    if flags.len() > 0 && flags[0] {
        Some(0)
    } else if flags.len() > 1 && flags[1] {
        Some(1)
    } else if flags.len() > 2 && flags[2] {
        Some(2)
    } else {
        None
    }
}

/// Whether the search found `path`.
pub open spec fn found_at(s: EspSearch, path: Seq<char>) -> bool {
    s matches EspSearch::Found(p) && p@ == path
}

/// The first step of the search for the mounted ESP on the platform.
pub fn find_esp_mount(platform: Platform) -> (s: EspSearch)
    ensures
        match platform {
            Platform::Linux => s == EspSearch::Ask(EspQuery::LinuxCandidates),
            Platform::Windows => s == EspSearch::Ask(EspQuery::WindowsAccessPaths),
            Platform::Other => s matches EspSearch::Failed(AppError::Efi { message }) && message@
                == "ESP bootloader scanning is not supported on this platform"@,
        },
{
    match platform {
        Platform::Linux => EspSearch::Ask(EspQuery::LinuxCandidates),
        Platform::Windows => EspSearch::Ask(EspQuery::WindowsAccessPaths),
        Platform::Other => EspSearch::Failed(
            AppError::Efi {
                message: String::from_str("ESP bootloader scanning is not supported on this platform"),
            },
        ),
    }
}

fn first_flagged_exec(v: &Vec<(String, bool)>) -> (r: Option<usize>)
    ensures
        match r {
            Some(k) => k < v@.len() && first_flagged(v@) == Some(k as int),
            None => first_flagged(v@) is None,
        },
{
    let mut i: usize = 0;
    while i < v.len()
        invariant
            i <= v.len(),
            forall|j: int| 0 <= j < i ==> !v@[j].1,
        decreases v.len() - i,
    {
        if v[i].1 {
            assert(0 <= i < v@.len() && v@[i as int].1);
            let ghost c = choose|k: int| 0 <= k < v@.len() && v@[k].1 && forall|j: int| 0 <= j < k ==> !v@[j].1;
            assert(c == i) by {
                if c < i {
                } else if c > i {
                }
            }
            return Some(i);
        }
        i = i + 1;
    }
    None
}

fn has_drive_letter_exec(p: &str) -> (r: bool)
    ensures
        r == has_drive_letter(p@),
{
    let cs = crate::text::chars_of(p);
    cs.len() >= 2 && (cs[0] as u32) < 128 && cs[1] == ':'
}

fn first_drive_exec(v: &Vec<(String, bool)>) -> (r: Option<usize>)
    ensures
        match r {
            Some(k) => k < v@.len() && first_drive(v@) == Some(k as int),
            None => first_drive(v@) is None,
        },
{
    let mut i: usize = 0;
    while i < v.len()
        invariant
            i <= v.len(),
            forall|j: int| 0 <= j < i ==> !has_drive_letter(v@[j].0@),
        decreases v.len() - i,
    {
        if has_drive_letter_exec(v[i].0.as_str()) {
            assert(0 <= i < v@.len() && has_drive_letter(v@[i as int].0@));
            let ghost c = choose|k: int|
                0 <= k < v@.len() && has_drive_letter(v@[k].0@) && forall|j: int|
                    0 <= j < k ==> !has_drive_letter(v@[j].0@);
            assert(c == i) by {
                if c < i {
                } else if c > i {
                }
            }
            return Some(i);
        }
        i = i + 1;
    }
    None
}

/// The search step after an answer.
///
/// Linux tries `/boot/efi`, `/efi` and `/boot`, then the mounted vfat file
/// systems, taking the first that holds an `EFI` (or `efi`) directory.
/// Windows takes the first ESP access path that holds an `EFI` directory,
/// else the first that names a drive, or the single path reported; without
/// one it mounts the ESP at `S:` and takes `S:\` when it holds `EFI`.
pub open spec fn esp_search_step(probe: EspProbe, s: EspSearch) -> bool {
    match probe {
        EspProbe::LinuxCandidates(flags) => match first_candidate(flags@) {
            Some(i) => found_at(s, linux_candidate_table()[i]),
            None => s == EspSearch::Ask(EspQuery::LinuxMounts),
        },
        EspProbe::LinuxMounts(None) => s matches EspSearch::Failed(e) && e matches AppError::Efi {
            message,
        } && message@ == linux_not_found_text(),
        EspProbe::LinuxMounts(Some(lines)) => match first_flagged(lines@) {
            Some(i) => found_at(s, lines@[i].0@),
            None => s matches EspSearch::Failed(e) && e matches AppError::Efi { message }
                && message@ == linux_not_found_text(),
        },
        EspProbe::WindowsAccessPaths(CommandRun::NotStarted(e)) => s matches EspSearch::Failed(e2)
            && efi_error_text(e2, "Failed to run PowerShell: "@, e@),
        EspProbe::WindowsAccessPaths(CommandRun::Failed(_)) => s == EspSearch::Ask(
            EspQuery::WindowsMountvol,
        ),
        EspProbe::WindowsAccessPaths(CommandRun::Succeeded(AccessPaths::Unusable)) => s
            == EspSearch::Ask(EspQuery::WindowsMountvol),
        EspProbe::WindowsAccessPaths(CommandRun::Succeeded(AccessPaths::Single(p))) => found_at(
            s,
            p@,
        ),
        EspProbe::WindowsAccessPaths(CommandRun::Succeeded(AccessPaths::List(ps))) => match first_flagged(ps@) {
            Some(i) => found_at(s, ps@[i].0@),
            None => match first_drive(ps@) {
                Some(i) => found_at(s, ps@[i].0@),
                None => s == EspSearch::Ask(EspQuery::WindowsMountvol),
            },
        },
        EspProbe::WindowsMountvol(CommandRun::NotStarted(e)) => s matches EspSearch::Failed(e2)
            && efi_error_text(e2, "Failed to run mountvol: "@, e@),
        EspProbe::WindowsMountvol(CommandRun::Succeeded(true)) => found_at(s, "S:\\"@),
        EspProbe::WindowsMountvol(_) => s matches EspSearch::Failed(e) && e matches AppError::Efi {
            message,
        } && message@ == windows_not_found_text(),
    }
}

/// Takes the next step of the search for the mounted ESP, given the answer
/// to the last question.
pub fn continue_esp_search(probe: EspProbe) -> (s: EspSearch)
    ensures
        esp_search_step(probe, s),
{
    match probe {
        EspProbe::LinuxCandidates(flags) => {
            let cands = linux_esp_candidates();
            let i: usize = if flags.len() > 0 && flags[0] {
                0
            } else if flags.len() > 1 && flags[1] {
                1
            } else if flags.len() > 2 && flags[2] {
                2
            } else {
                return EspSearch::Ask(EspQuery::LinuxMounts);
            };
            assert(cands@[i as int]@ == linux_candidate_table()[i as int]);
            EspSearch::Found(String::from_str(cands[i]))
        },
        EspProbe::LinuxMounts(None) => EspSearch::Failed(
            AppError::Efi {
                message: String::from_str(
                    "Could not find mounted ESP. Check that it is mounted at /boot/efi or /efi.",
                ),
            },
        ),
        EspProbe::LinuxMounts(Some(lines)) => match first_flagged_exec(&lines) {
            Some(i) => {
                let p = lines[i].0.clone();
                assert(p@ == lines@[i as int].0@);
                EspSearch::Found(p)
            },
            None => EspSearch::Failed(
                AppError::Efi {
                    message: String::from_str(
                        "Could not find mounted ESP. Check that it is mounted at /boot/efi or /efi.",
                    ),
                },
            ),
        },
        EspProbe::WindowsAccessPaths(CommandRun::NotStarted(e)) => EspSearch::Failed(
            efi_error("Failed to run PowerShell: ", e.as_str()),
        ),
        EspProbe::WindowsAccessPaths(CommandRun::Failed(_)) => EspSearch::Ask(
            EspQuery::WindowsMountvol,
        ),
        EspProbe::WindowsAccessPaths(CommandRun::Succeeded(AccessPaths::Unusable)) => EspSearch::Ask(
            EspQuery::WindowsMountvol,
        ),
        EspProbe::WindowsAccessPaths(CommandRun::Succeeded(AccessPaths::Single(p))) => EspSearch::Found(p),
        EspProbe::WindowsAccessPaths(CommandRun::Succeeded(AccessPaths::List(ps))) => {
            match first_flagged_exec(&ps) {
                Some(i) => EspSearch::Found(ps[i].0.clone()),
                None => match first_drive_exec(&ps) {
                    Some(i) => EspSearch::Found(ps[i].0.clone()),
                    None => EspSearch::Ask(EspQuery::WindowsMountvol),
                },
            }
        },
        EspProbe::WindowsMountvol(CommandRun::NotStarted(e)) => EspSearch::Failed(
            efi_error("Failed to run mountvol: ", e.as_str()),
        ),
        EspProbe::WindowsMountvol(CommandRun::Succeeded(true)) => EspSearch::Found(String::from_str("S:\\")),
        EspProbe::WindowsMountvol(_) => EspSearch::Failed(
            AppError::Efi {
                message: String::from_str(
                    "Could not find or mount the ESP partition. Try running as administrator.",
                ),
            },
        ),
    }
}

} // verus!
