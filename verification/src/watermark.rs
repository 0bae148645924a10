//! The data side of the Insider watermark patch: the symbol identity of
//! `shell32.dll`, the cached address of the watermark function, the patch
//! bytes and where they go, and how the desktop is refreshed afterwards.

use vstd::prelude::*;
use crate::text::{ascii_ci_eq, eq_ignore_ascii_case};

verus! {

/// The window style bit of a visible window.
pub const WS_VISIBLE: u32 = 0x1000_0000;

/// The `WM_COMMAND` identifier that toggles the desktop icons.
pub const DESKTOP_TOGGLE_COMMAND: usize = 0x7402;

/// The upper-case hexadecimal digit of a value below 16.
pub open spec fn hex_char(d: nat) -> char {
    if d == 0 { '0' } else if d == 1 { '1' } else if d == 2 { '2' } else if d == 3 { '3' }
    else if d == 4 { '4' } else if d == 5 { '5' } else if d == 6 { '6' } else if d == 7 { '7' }
    else if d == 8 { '8' } else if d == 9 { '9' } else if d == 10 { 'A' } else if d == 11 { 'B' }
    else if d == 12 { 'C' } else if d == 13 { 'D' } else if d == 14 { 'E' } else { 'F' }
}

/// `n` in upper-case hexadecimal on exactly `width` digits (the low
/// `width` digits, zero-padded).
pub open spec fn hex_fixed(n: nat, width: nat) -> Seq<char>
    decreases width,
{
    if width == 0 {
        Seq::empty()
    } else {
        hex_fixed(n / 16, (width - 1) as nat).push(hex_char(n % 16))
    }
}

/// `n` in upper-case hexadecimal without leading zeros ("0" for zero).
pub open spec fn hex_min(n: nat) -> Seq<char>
    decreases n,
{
    if n < 16 {
        seq![hex_char(n)]
    } else {
        hex_min(n / 16).push(hex_char(n % 16))
    }
}

/// The symbol identity of a PDB: its signature on 32 hexadecimal digits,
/// then its age in hexadecimal.
pub open spec fn spec_pdb_guid(sig: u128, age: u32) -> Seq<char> {
    hex_fixed(sig as nat, 32) + hex_min(age as nat)
}

/// Digits stored least significant first, read most significant first.
pub open spec fn rev_hex(ds: Seq<u8>) -> Seq<char> {
    Seq::new(ds.len(), |i: int| hex_char(ds[ds.len() - 1 - i] as nat))
}

fn hex_digit_str(d: u8) -> (s: &'static str)
    requires
        d < 16,
    ensures
        s@ == seq![hex_char(d as nat)],
{
    if d == 0 { proof { reveal_strlit("0"); } "0" }
    else if d == 1 { proof { reveal_strlit("1"); } "1" }
    else if d == 2 { proof { reveal_strlit("2"); } "2" }
    else if d == 3 { proof { reveal_strlit("3"); } "3" }
    else if d == 4 { proof { reveal_strlit("4"); } "4" }
    else if d == 5 { proof { reveal_strlit("5"); } "5" }
    else if d == 6 { proof { reveal_strlit("6"); } "6" }
    else if d == 7 { proof { reveal_strlit("7"); } "7" }
    else if d == 8 { proof { reveal_strlit("8"); } "8" }
    else if d == 9 { proof { reveal_strlit("9"); } "9" }
    else if d == 10 { proof { reveal_strlit("A"); } "A" }
    else if d == 11 { proof { reveal_strlit("B"); } "B" }
    else if d == 12 { proof { reveal_strlit("C"); } "C" }
    else if d == 13 { proof { reveal_strlit("D"); } "D" }
    else if d == 14 { proof { reveal_strlit("E"); } "E" }
    else { proof { reveal_strlit("F"); } "F" }
}

proof fn lemma_rev_hex_push(ds: Seq<u8>, d: u8)
    ensures
        rev_hex(ds.push(d)) == seq![hex_char(d as nat)] + rev_hex(ds),
{
    assert(rev_hex(ds.push(d)) =~= seq![hex_char(d as nat)] + rev_hex(ds));
}

/// Appends the digits, most significant first.
fn append_rev_hex(s: &mut String, ds: &Vec<u8>)
    requires
        forall|i: int| 0 <= i < ds@.len() ==> #[trigger] ds@[i] < 16,
    ensures
        final(s)@ == old(s)@ + rev_hex(ds@),
{
    let n = ds.len();
    let mut j: usize = n;
    let ghost start = s@;
    while j > 0
        invariant
            n == ds@.len(),
            j <= n,
            forall|i: int| 0 <= i < ds@.len() ==> #[trigger] ds@[i] < 16,
            s@ == start + rev_hex(ds@).subrange(0, (n - j) as int),
        decreases j,
    {
        let d = ds[j - 1];
        let t = hex_digit_str(d);
        s.append(t);
        j = j - 1;
        assert(rev_hex(ds@).subrange(0, (n - j) as int) =~= rev_hex(ds@).subrange(0, (n - j - 1) as int)
            + seq![hex_char(d as nat)]);
    }
    assert(rev_hex(ds@).subrange(0, n as int) =~= rev_hex(ds@));
}

/// The low `width` hexadecimal digits of `n`, least significant first.
fn hex_digits_fixed(n: u128, width: usize) -> (ds: Vec<u8>)
    ensures
        ds@.len() == width,
        forall|i: int| 0 <= i < ds@.len() ==> #[trigger] ds@[i] < 16,
        rev_hex(ds@) == hex_fixed(n as nat, width as nat),
{
    let mut ds: Vec<u8> = Vec::new();
    let mut x: u128 = n;
    let mut k: usize = 0;
    while k < width
        invariant
            k <= width,
            ds@.len() == k,
            forall|i: int| 0 <= i < ds@.len() ==> #[trigger] ds@[i] < 16,
            hex_fixed(n as nat, width as nat) == hex_fixed(x as nat, (width - k) as nat) + rev_hex(ds@),
        decreases width - k,
    {
        let d: u8 = (x % 16) as u8;
        proof {
            lemma_rev_hex_push(ds@, d);
            assert(hex_fixed(x as nat, (width - k) as nat) == hex_fixed((x / 16) as nat, (width - k - 1) as nat).push(
                hex_char(d as nat),
            ));
            assert(hex_fixed((x / 16) as nat, (width - k - 1) as nat).push(hex_char(d as nat)) + rev_hex(ds@)
                =~= hex_fixed((x / 16) as nat, (width - k - 1) as nat) + (seq![hex_char(d as nat)] + rev_hex(ds@)));
        }
        ds.push(d);
        x = x / 16;
        k = k + 1;
    }
    assert(hex_fixed(x as nat, 0) + rev_hex(ds@) =~= rev_hex(ds@));
    ds
}

/// The hexadecimal digits of `n` without leading zeros, least significant
/// first.
fn hex_digits_min(n: u128) -> (ds: Vec<u8>)
    ensures
        forall|i: int| 0 <= i < ds@.len() ==> #[trigger] ds@[i] < 16,
        rev_hex(ds@) == hex_min(n as nat),
{
    let mut ds: Vec<u8> = Vec::new();
    let mut x: u128 = n;
    loop
        invariant
            forall|i: int| 0 <= i < ds@.len() ==> #[trigger] ds@[i] < 16,
            hex_min(n as nat) == hex_min(x as nat) + rev_hex(ds@),
        decreases x,
    {
        let d: u8 = (x % 16) as u8;
        proof {
            lemma_rev_hex_push(ds@, d);
        }
        if x < 16 {
            ds.push(d);
            assert(hex_min(n as nat) =~= rev_hex(ds@));
            return ds;
        }
        proof {
            assert(hex_min(x as nat) == hex_min((x / 16) as nat).push(hex_char(d as nat)));
            assert(hex_min((x / 16) as nat).push(hex_char(d as nat)) + rev_hex(ds@)
                =~= hex_min((x / 16) as nat) + (seq![hex_char(d as nat)] + rev_hex(ds@)));
        }
        ds.push(d);
        x = x / 16;
    }
}

/// The symbol identity under which Microsoft's symbol server files the
/// PDB of a module: the 128-bit PDB signature on 32 upper-case hexadecimal
/// digits followed by the age in upper-case hexadecimal without leading
/// zeros.
pub fn format_pdb_guid(sig: u128, age: u32) -> (s: String)
    ensures
        s@ == spec_pdb_guid(sig, age),
{
    let mut s = String::new();
    let sig_digits = hex_digits_fixed(sig, 32);
    append_rev_hex(&mut s, &sig_digits);
    let age_digits = hex_digits_min(age as u128);
    append_rev_hex(&mut s, &age_digits);
    s
}

/// The name of the file that caches the watermark function's address for a
/// symbol identity.
pub fn rva_cache_file_name(guid: &str) -> (s: String)
    ensures
        s@ == guid@ + ".rva"@,
{
    let mut s = String::from_str(guid);
    s.append(".rva");
    s
}

/// The big-endian value of four bytes.
pub open spec fn be_u32(b0: u8, b1: u8, b2: u8, b3: u8) -> int {
    b0 * 0x100_0000 + b1 * 0x1_0000 + b2 * 0x100 + b3
}

/// Reads a cached address: four bytes, big-endian.
pub fn decode_cached_rva(bytes: &[u8]) -> (r: u32)
    requires
        bytes@.len() == 4,
    ensures
        r == be_u32(bytes@[0], bytes@[1], bytes@[2], bytes@[3]),
{
    (bytes[0] as u32) * 0x100_0000 + (bytes[1] as u32) * 0x1_0000 + (bytes[2] as u32) * 0x100 + (bytes[3] as u32)
}

/// The four big-endian bytes that cache an address.
pub fn encode_rva(rva: u32) -> (bytes: Vec<u8>)
    ensures
        bytes@ == seq![
            (rva / 0x100_0000) as u8,
            ((rva / 0x1_0000) % 0x100) as u8,
            ((rva / 0x100) % 0x100) as u8,
            (rva % 0x100) as u8,
        ],
{
    let mut bytes: Vec<u8> = Vec::new();
    bytes.push((rva / 0x100_0000) as u8);
    bytes.push(((rva / 0x1_0000) % 0x100) as u8);
    bytes.push(((rva / 0x100) % 0x100) as u8);
    bytes.push((rva % 0x100) as u8);
    bytes
}

/// Reading back a cached address gives the address that was cached, and
/// caching a read address gives back the four bytes read.
pub proof fn lemma_rva_cache_round_trip(rva: u32, b0: u8, b1: u8, b2: u8, b3: u8)
    ensures
        be_u32(
            (rva / 0x100_0000) as u8,
            ((rva / 0x1_0000) % 0x100) as u8,
            ((rva / 0x100) % 0x100) as u8,
            (rva % 0x100) as u8,
        ) == rva,
        0 <= be_u32(b0, b1, b2, b3) <= u32::MAX,
        ((be_u32(b0, b1, b2, b3) as u32) / 0x100_0000) as u8 == b0,
        (((be_u32(b0, b1, b2, b3) as u32) / 0x1_0000) % 0x100) as u8 == b1,
        (((be_u32(b0, b1, b2, b3) as u32) / 0x100) % 0x100) as u8 == b2,
        ((be_u32(b0, b1, b2, b3) as u32) % 0x100) as u8 == b3,
{
    assert(be_u32(
        (rva / 0x100_0000) as u8,
        ((rva / 0x1_0000) % 0x100) as u8,
        ((rva / 0x100) % 0x100) as u8,
        (rva % 0x100) as u8,
    ) == rva) by (nonlinear_arith);
    assert(0 <= be_u32(b0, b1, b2, b3) <= u32::MAX) by (nonlinear_arith);
    let v = be_u32(b0, b1, b2, b3);
    assert((v / 0x100_0000) == b0 && (v / 0x1_0000) % 0x100 == b1 && (v / 0x100) % 0x100 == b2
        && v % 0x100 == b3) by (nonlinear_arith)
        requires
            v == b0 * 0x100_0000 + b1 * 0x1_0000 + b2 * 0x100 + b3,
            b0 < 256, b1 < 256, b2 < 256, b3 < 256;
}

/// Where the patch goes in Explorer: the watermark function's address
/// relative to the image, added to where `shell32.dll` is loaded. An
/// address past the end of the address space is none.
pub fn patch_target_address(base_of_image: u64, rva: u32) -> (r: Option<u64>)
    ensures
        r == (if base_of_image + rva <= u64::MAX { Some((base_of_image + rva) as u64) } else { None }),
{
    base_of_image.checked_add(rva as u64)
}

/// The processor the patch is for.
#[derive(Clone, Copy, Debug, PartialEq, Eq, Structural)]
pub enum PatchArch {
    X86_64,
    Aarch64,
}

/// The bytes written over the watermark function so that it returns at
/// once: `ret` on x86-64, `br x30` on AArch64.
pub fn ret_instruction(arch: PatchArch) -> (bytes: Vec<u8>)
    ensures
        bytes@ == (match arch {
            PatchArch::X86_64 => seq![0xC3u8],
            PatchArch::Aarch64 => seq![0xC0u8, 0x03u8, 0x1Fu8, 0xD6u8],
        }),
{
    let mut bytes: Vec<u8> = Vec::new();
    match arch {
        PatchArch::X86_64 => {
            bytes.push(0xC3);
        },
        PatchArch::Aarch64 => {
            bytes.push(0xC0);
            bytes.push(0x03);
            bytes.push(0x1F);
            bytes.push(0xD6);
        },
    }
    bytes
}

/// How the desktop is refreshed after the patch.
#[derive(Clone, Copy, Debug, PartialEq, Eq, Structural)]
pub enum RefreshAction {
    /// Notify the shell that file associations changed.
    NotifyAssociationsChanged,
    /// Send `DESKTOP_TOGGLE_COMMAND` twice to the desktop, hiding and
    /// showing its icons.
    ToggleDesktopIcons,
}

/// The refresh for a desktop icon view with window style `style`: a
/// visible view is refreshed by an association change notification, a
/// hidden one by toggling the icons twice.
pub fn refresh_action(style: u32) -> (r: RefreshAction)
    ensures
        r == (if style & WS_VISIBLE == WS_VISIBLE {
            RefreshAction::NotifyAssociationsChanged
        } else {
            RefreshAction::ToggleDesktopIcons
        }),
{
    if style & WS_VISIBLE == WS_VISIBLE {
        RefreshAction::NotifyAssociationsChanged
    } else {
        RefreshAction::ToggleDesktopIcons
    }
}

/// The message reported when the patch failed: the failure's own text when
/// it carried one, else a fixed text.
pub fn patch_failure_message(payload: Option<String>) -> (m: String)
    ensures
        m@ == (match payload {
            Some(p) => p@,
            None => "UWD2 terminó con un error no especificado"@,
        }),
{
    match payload {
        Some(p) => p,
        None => String::from_str("UWD2 terminó con un error no especificado"),
    }
}

/// The text shown when a patch the user asked for failed.
pub fn watermark_error_message(error: &str) -> (m: String)
    ensures
        m@ == "No se pudo volver a aplicar el parche Insider.\n\n"@ + error@,
{
    let mut m = String::from_str("No se pudo volver a aplicar el parche Insider.\n\n");
    m.append(error);
    m
}

/// Whether a process image name is Explorer's (ASCII case ignored).
pub fn is_explorer_process(process_name: &str) -> (r: bool)
    ensures
        r == ascii_ci_eq(process_name@, "explorer.exe"@),
{
    eq_ignore_ascii_case(process_name, "explorer.exe")
}

/// A process id as read from a window: zero means none.
pub fn explorer_pid_from(pid: u32) -> (r: Option<u32>)
    ensures
        r == (if pid != 0 { Some(pid) } else { None }),
{
    if pid != 0 { Some(pid) } else { None }
}

/// A patch is due when Explorer runs and is not the process seen last.
pub open spec fn patch_due(last_pid: Option<u32>, current_pid: Option<u32>) -> bool {
    current_pid is Some && current_pid != last_pid
}

/// One reading: remember it, and ask for a patch when one is due.
pub open spec fn spec_explorer_observe(m: ExplorerMonitor, current_pid: Option<u32>) -> (ExplorerMonitor, bool) {
    (ExplorerMonitor { last_pid: current_pid }, patch_due(m.last_pid, current_pid))
}

/// Watches Explorer's process id to patch again after Explorer restarts.
#[derive(Clone, Copy, Debug, PartialEq, Eq, Structural)]
pub struct ExplorerMonitor {
    pub last_pid: Option<u32>,
}

impl ExplorerMonitor {
    /// Starts from the process id found at startup.
    pub fn new(initial_pid: Option<u32>) -> (m: Self)
        ensures
            m.last_pid == initial_pid,
    {
        ExplorerMonitor { last_pid: initial_pid }
    }

    /// Takes one reading of Explorer's process id; returns whether a patch
    /// is due: Explorer runs and is not the process seen last time.
    pub fn observe(&mut self, current_pid: Option<u32>) -> (patch: bool)
        ensures
            (*final(self), patch) == spec_explorer_observe(*old(self), current_pid),
    {
        let patch = match current_pid {
            Some(c) => match self.last_pid {
                Some(l) => c != l,
                None => true,
            },
            None => false,
        };
        self.last_pid = current_pid;
        patch
    }
}

/// A patch is requested once per new Explorer process: reading the same
/// process id again requests nothing.
pub proof fn lemma_one_patch_per_explorer(pid: Option<u32>, last: Option<u32>)
    ensures
        !patch_due(pid, pid),
        !patch_due(last, None),
        last is None && pid is Some ==> patch_due(last, pid),
{
}

pub open spec fn spec_try_begin(g: PatchGate) -> (PatchGate, bool) {
    (PatchGate { in_progress: true }, !g.in_progress)
}

/// The monitor after a run of process id readings.
pub open spec fn explorer_after(m0: ExplorerMonitor, pids: Seq<Option<u32>>) -> ExplorerMonitor
    decreases pids.len(),
{
    if pids.len() == 0 {
        m0
    } else {
        spec_explorer_observe(explorer_after(m0, pids.drop_last()), pids.last()).0
    }
}

/// Whether the reading at index `i` of a run asks for a patch.
pub open spec fn explorer_output(m0: ExplorerMonitor, pids: Seq<Option<u32>>, i: int) -> bool {
    spec_explorer_observe(explorer_after(m0, pids.take(i)), pids[i]).1
}

/// Over any run of readings, a patch is asked for at reading `i` exactly
/// when Explorer runs and its process id differs from the previous reading
/// (from the one found at startup, for the first reading).
pub proof fn lemma_patch_per_new_explorer_run(m0: ExplorerMonitor, pids: Seq<Option<u32>>, i: int)
    requires
        0 <= i < pids.len(),
    ensures
        explorer_output(m0, pids, i) == (pids[i] is Some && pids[i] != (if i == 0 {
            m0.last_pid
        } else {
            pids[i - 1]
        })),
{
    if i > 0 {
        assert(pids.take(i).last() == pids[i - 1]);
        assert(explorer_after(m0, pids.take(i)).last_pid == pids[i - 1]);
    } else {
        assert(pids.take(0) =~= Seq::<Option<u32>>::empty());
    }
}

/// Lets at most one watermark patch run at a time.
#[derive(Clone, Copy, Debug, PartialEq, Eq, Structural)]
pub struct PatchGate {
    pub in_progress: bool,
}

impl PatchGate {
    pub fn new() -> (g: Self)
        ensures
            !g.in_progress,
    {
        PatchGate { in_progress: false }
    }

    /// Marks a run as started; returns whether it may go ahead, which is
    /// when no other run was going on.
    pub fn try_begin(&mut self) -> (start: bool)
        ensures
            (*final(self), start) == spec_try_begin(*old(self)),
    {
        let start = !self.in_progress;
        self.in_progress = true;
        start
    }

    /// Marks the current run as finished.
    pub fn finish(&mut self)
        ensures
            !final(self).in_progress,
    {
        self.in_progress = false;
    }
}

/// Of two claims with no release between them, the second is refused;
/// after a release the next claim succeeds.
pub proof fn lemma_one_patch_at_a_time(g: PatchGate)
    ensures
        !spec_try_begin(spec_try_begin(g).0).1,
        spec_try_begin(PatchGate { in_progress: false }).1,
{
}

/// The value of an upper-case hexadecimal digit (-1 for any other
/// character).
pub open spec fn hex_digit_value(c: char) -> int {
    let u = c as u32;
    if 48 <= u && u <= 57 {
        u - 48
    } else if 65 <= u && u <= 70 {
        u - 55
    } else {
        -1
    }
}

/// The number an upper-case hexadecimal string denotes, most significant
/// digit first.
pub open spec fn hex_value(s: Seq<char>) -> int
    decreases s.len(),
{
    if s.len() == 0 {
        0
    } else {
        hex_value(s.drop_last()) * 16 + hex_digit_value(s.last())
    }
}

pub open spec fn pow16(w: nat) -> int
    decreases w,
{
    if w == 0 { 1 } else { 16 * pow16((w - 1) as nat) }
}

/// Every value below 16 has its own digit, which denotes it; only zero's is
/// `'0'`.
pub proof fn lemma_hex_char_denotes(d: nat)
    requires
        d < 16,
    ensures
        hex_digit_value(hex_char(d)) == d,
        hex_char(d) == '0' <==> d == 0,
{
}

proof fn lemma_pow16_positive(w: nat)
    ensures
        pow16(w) > 0,
    decreases w,
{
    if w > 0 {
        lemma_pow16_positive((w - 1) as nat);
    }
}

/// The fixed-width digits have exactly `width` digits and denote `n`
/// reduced modulo 16 to the `width`.
pub proof fn lemma_hex_fixed_denotes(n: nat, width: nat)
    ensures
        hex_fixed(n, width).len() == width,
        hex_value(hex_fixed(n, width)) == (n as int) % pow16(width),
    decreases width,
{
    lemma_pow16_positive(width);
    if width > 0 {
        let w1 = (width - 1) as nat;
        lemma_hex_fixed_denotes(n / 16, w1);
        lemma_hex_char_denotes(n % 16);
        lemma_pow16_positive(w1);
        let s = hex_fixed(n, width);
        assert(s.drop_last() =~= hex_fixed(n / 16, w1));
        vstd::arithmetic::div_mod::lemma_mod_breakdown(n as int, 16, pow16(w1));
        assert(16 * pow16(w1) == pow16(width));
        assert(hex_value(s) == ((n / 16) as int % pow16(w1)) * 16 + (n as int) % 16);
    }
}

/// The digits without leading zeros denote `n`, and begin with a zero only
/// when `n` is zero.
pub proof fn lemma_hex_min_denotes(n: nat)
    ensures
        hex_min(n).len() >= 1,
        hex_value(hex_min(n)) == n,
        hex_min(n)[0] == '0' <==> n == 0,
    decreases n,
{
    if n < 16 {
        lemma_hex_char_denotes(n);
        assert(hex_min(n).drop_last() =~= Seq::<char>::empty());
        assert(hex_value(Seq::<char>::empty()) == 0);
        assert(hex_min(n).last() == hex_char(n));
    } else {
        lemma_hex_min_denotes(n / 16);
        lemma_hex_char_denotes(n % 16);
        let s = hex_min(n);
        assert(s.drop_last() =~= hex_min(n / 16));
        assert(s[0] == hex_min(n / 16)[0]);
        assert(s.last() == hex_char(n % 16));
        assert(hex_value(s) == hex_value(hex_min(n / 16)) * 16 + (n % 16));
    }
}

/// The symbol identity consists of 32 digits that denote the signature,
/// then digits without leading zeros that denote the age.
pub proof fn lemma_pdb_guid_parts(sig: u128, age: u32)
    ensures
        spec_pdb_guid(sig, age).len() > 32,
        hex_value(spec_pdb_guid(sig, age).subrange(0, 32)) == sig,
        hex_value(spec_pdb_guid(sig, age).subrange(32, spec_pdb_guid(sig, age).len() as int)) == age,
        spec_pdb_guid(sig, age)[32] == '0' <==> age == 0,
{
    lemma_hex_fixed_denotes(sig as nat, 32);
    lemma_hex_min_denotes(age as nat);
    reveal_with_fuel(pow16, 33);
    assert(pow16(32) == 0x1_0000_0000_0000_0000_0000_0000_0000_0000);
    let g = spec_pdb_guid(sig, age);
    assert(g.subrange(0, 32) =~= hex_fixed(sig as nat, 32));
    assert(g.subrange(32, g.len() as int) =~= hex_min(age as nat));
}

} // verus!
