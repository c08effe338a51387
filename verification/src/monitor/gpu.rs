//! GPU discovery and sampling decisions: which DRM cards are GPUs of which
//! vendor, how Intel cards are ordered, which perf PMUs to try for a card,
//! how the sysfs PMU files are parsed, and how successive rc6 counter
//! readings turn into an interval to derive utilisation from.
use vstd::prelude::*;

use crate::text::{
    as_u64, concat_chars, copy_range, decimal, decimal_chars, equals_str, find_char, index_of,
    is_white_space, lemma_decimal_parses, lemma_index_of_absent, lemma_index_of_found, lemma_decimal_roundtrip, lemma_digit_not_space,
    lemma_trim_unchanged, parse_unsigned, parse_unsigned_chars, split, split_chars, split_once,
    split_once_chars, string_from_chars, strip_prefix, strip_prefix_chars, to_chars, trim,
    trim_chars,
};

verus! {

broadcast use vstd::string::group_string_axioms;

// ---------------------------------------------------------------------------
// PMU event spec: "config=0x100003" or "event=0x12,umask=0x01"
// ---------------------------------------------------------------------------

/// The hexadecimal number in the value part of a `key=value` pair: trimmed,
/// with one leading `0x` removed if present.
pub open spec fn config_value(v: Seq<char>) -> Option<nat> {
    let t = trim(v);
    let digits = match strip_prefix(t, "0x"@) {
        Some(rest) => rest,
        None => t,
    };
    parse_unsigned(digits, 16, u64::MAX as nat)
}

/// Scanning the comma-separated pairs in order: the first pair without `=`
/// ends the scan with nothing; the first pair whose trimmed key is
/// `config` gives its value; running out of pairs gives nothing.
pub open spec fn config_in_pairs(pairs: Seq<Seq<char>>) -> Option<nat>
    decreases pairs.len(),
{
    if pairs.len() == 0 {
        None
    } else {
        match split_once(pairs[0], '=') {
            None => None,
            Some((k, v)) => if trim(k) == "config"@ {
                config_value(v)
            } else {
                config_in_pairs(pairs.drop_first())
            },
        }
    }
}

/// The `config` value of a sysfs PMU event spec.
pub open spec fn pmu_event_config(s: Seq<char>) -> Option<u64> {
    as_u64(config_in_pairs(split(trim(s), ',')))
}

/// Parses a sysfs PMU event spec like "config=0x100003" or
/// "event=0x12,umask=0x01" and returns the `config` value.
pub fn parse_pmu_event_config(s: &str) -> (r: Option<u64>)
    ensures
        r == pmu_event_config(s@),
{
    let chars = to_chars(s);
    let t = trim_chars(chars.as_slice());
    let pairs = split_chars(t.as_slice(), ',');
    let ghost pieces = split(t@, ',');
    let mut i: usize = 0;
    assert(pieces.skip(0) == pieces);
    while i < pairs.len()
        invariant
            pieces == split(trim(s@), ','),
            pairs@.len() == pieces.len(),
            forall|k: int| 0 <= k < pairs@.len() ==> #[trigger] pairs@[k]@ == pieces[k],
            i <= pairs@.len(),
            config_in_pairs(pieces.skip(i as int)) == config_in_pairs(pieces),
        decreases pairs@.len() - i,
    {
        let ghost rest = pieces.skip(i as int);
        assert(rest[0] == pieces[i as int]);
        assert(rest.drop_first() == pieces.skip(i + 1));
        let pair = &pairs[i];
        assert(pair@ == pieces[i as int]);
        match split_once_chars(pair.as_slice(), '=') {
            None => {
                return None;
            },
            Some((k, v)) => {
                let kt = trim_chars(k.as_slice());
                if equals_str(kt.as_slice(), "config") {
                    let vt = trim_chars(v.as_slice());
                    let digits = match strip_prefix_chars(vt.as_slice(), "0x") {
                        Some(d) => d,
                        None => vt,
                    };
                    return parse_unsigned_chars(digits.as_slice(), 16, u64::MAX);
                }
            },
        }
        i += 1;
    }
    assert(pieces.skip(i as int).len() == 0);
    None
}

// ---------------------------------------------------------------------------
// cpumask: "0", "0-3", "0,4"
// ---------------------------------------------------------------------------

/// The text before the first `a` or `b` (all of `s` when neither occurs).
pub open spec fn first_field(s: Seq<char>, a: char, b: char) -> Seq<char>
    decreases s.len(),
{
    if s.len() == 0 || s[0] == a || s[0] == b {
        Seq::<char>::empty()
    } else {
        seq![s[0]] + first_field(s.drop_first(), a, b)
    }
}

/// The result of `opt` as a `u32`, for values that fit.
pub open spec fn as_u32(opt: Option<nat>) -> Option<u32> {
    match opt {
        Some(v) => Some(v as u32),
        None => None,
    }
}

/// The first CPU of a Linux cpumask: the decimal number before the first
/// `-` or `,`, with whitespace around the mask and the number ignored.
pub open spec fn first_cpu(s: Seq<char>) -> Option<u32> {
    as_u32(parse_unsigned(trim(first_field(trim(s), '-', ',')), 10, u32::MAX as nat))
}

proof fn lemma_first_field(s: Seq<char>, a: char, b: char, j: int)
    requires
        0 <= j <= s.len(),
        forall|k: int| 0 <= k < j ==> s[k] != a && s[k] != b,
        j == s.len() || s[j] == a || s[j] == b,
    ensures
        first_field(s, a, b) == s.take(j),
    decreases s.len(),
{
    if j > 0 {
        lemma_first_field(s.drop_first(), a, b, j - 1);
        assert(s.take(j) == seq![s[0]] + s.drop_first().take(j - 1));
    } else {
        assert(s.take(0) == Seq::<char>::empty());
    }
}

fn first_field_chars(s: &[char], a: char, b: char) -> (r: Vec<char>)
    ensures
        r@ == first_field(s@, a, b),
{
    let mut i: usize = 0;
    while i < s.len() && s[i] != a && s[i] != b
        invariant
            i <= s@.len(),
            forall|k: int| 0 <= k < i ==> s@[k] != a && s@[k] != b,
        decreases s@.len() - i,
    {
        i += 1;
    }
    proof {
        lemma_first_field(s@, a, b, i as int);
    }
    copy_range(s, 0, i)
}

/// Parses a Linux cpumask like "0", "0-3", or "0,4" and returns the first CPU.
pub fn parse_first_cpu(s: &str) -> (r: Option<u32>)
    ensures
        r == first_cpu(s@),
{
    let chars = to_chars(s);
    let t = trim_chars(chars.as_slice());
    let field = first_field_chars(t.as_slice(), '-', ',');
    let num = trim_chars(field.as_slice());
    match parse_unsigned_chars(num.as_slice(), 10, 0xffff_ffffu64) {
        Some(v) => Some(v as u32),
        None => None,
    }
}

/// The PMU type, `config` value and home CPU of a perf PMU, from the texts
/// of its `type` file, its `rc6-residency-gt0` event file and (if it could
/// be read) its `cpumask` file. Nothing when the type or the `config` value
/// cannot be parsed; CPU 0 when the cpumask is missing or unparsable.
pub fn pmu_lookup(type_text: &str, event_text: &str, cpumask_text: Option<&str>) -> (r: Option<(u32, u64, u32)>)
    ensures
        r == (match (as_u32(parse_unsigned(trim(type_text@), 10, u32::MAX as nat)), pmu_event_config(event_text@)) {
            (Some(t), Some(c)) => Some((t, c, match cpumask_text {
                Some(m) => match first_cpu(m@) {
                    Some(cpu) => cpu,
                    None => 0u32,
                },
                None => 0u32,
            })),
            _ => None,
        }),
{
    let type_chars = to_chars(type_text);
    let type_trimmed = trim_chars(type_chars.as_slice());
    let pmu_type = match parse_unsigned_chars(type_trimmed.as_slice(), 10, 0xffff_ffffu64) {
        Some(v) => v as u32,
        None => return None,
    };
    let config = match parse_pmu_event_config(event_text) {
        Some(c) => c,
        None => return None,
    };
    let cpu = match cpumask_text {
        Some(m) => match parse_first_cpu(m) {
            Some(c) => c,
            None => 0,
        },
        None => 0,
    };
    Some((pmu_type, config, cpu))
}

/// A decimal number in a sysfs file: the file's text, trimmed, as a `u64`.
pub fn parse_sysfs_u64(text: &str) -> (r: Option<u64>)
    ensures
        r == as_u64(parse_unsigned(trim(text@), 10, u64::MAX as nat)),
{
    let chars = to_chars(text);
    let t = trim_chars(chars.as_slice());
    parse_unsigned_chars(t.as_slice(), 10, u64::MAX)
}

// ---------------------------------------------------------------------------
// DRM cards
// ---------------------------------------------------------------------------

/// The result of `opt` as a `usize`, for values that fit.
pub open spec fn as_usize(opt: Option<nat>) -> Option<usize> {
    match opt {
        Some(v) => Some(v as usize),
        None => None,
    }
}

/// The card number in a DRM card directory name such as `card1`.
pub open spec fn card_index(name: Seq<char>) -> Option<usize> {
    match strip_prefix(name, "card"@) {
        Some(rest) => as_usize(parse_unsigned(rest, 10, usize::MAX as nat)),
        None => None,
    }
}

/// Extract the card index from the name of a drm card directory, the parent
/// of a device path like `/sys/class/drm/card1/device`. Returns `None` if
/// the name doesn't follow the expected pattern.
pub fn drm_card_index(card_dir_name: &str) -> (r: Option<usize>)
    ensures
        r == card_index(card_dir_name@),
{
    let name = to_chars(card_dir_name);
    match strip_prefix_chars(name.as_slice(), "card") {
        Some(rest) => match parse_unsigned_chars(rest.as_slice(), 10, usize::MAX as u64) {
            Some(v) => Some(v as usize),
            None => None,
        },
        None => None,
    }
}

/// An entry of `/sys/class/drm` that is a card (`card0`, `card1`, ...) and
/// not one of its connectors (`card0-HDMI-A-1`, ...).
pub open spec fn is_card_entry_name(name: Seq<char>) -> bool {
    strip_prefix(name, "card"@) is Some && index_of(name, '-') is None
}

/// Whether a `/sys/class/drm` entry name denotes a card.
pub fn is_card_entry(name: &str) -> (r: bool)
    ensures
        r == is_card_entry_name(name@),
{
    let chars = to_chars(name);
    match strip_prefix_chars(chars.as_slice(), "card") {
        Some(_) => find_char(chars.as_slice(), '-').is_none(),
        None => false,
    }
}

/// The known ARM GPU kernel drivers.
pub open spec fn is_arm_driver_name(name: Seq<char>) -> bool {
    ||| name == "panfrost"@
    ||| name == "lima"@
    ||| name == "freedreno"@
    ||| name == "msm"@
    ||| name == "vc4"@
    ||| name == "v3d"@
    ||| name == "etnaviv"@
    ||| name == "pvr"@
    ||| name == "tegra"@
    ||| name == "host1x"@
}

/// Known ARM GPU kernel drivers. Anything not in this list is a virtual
/// GPU, a software renderer, or a display controller — not a real ARM GPU.
pub fn is_arm_driver(name: &str) -> (r: bool)
    ensures
        r == is_arm_driver_name(name@),
{
    let n = to_chars(name);
    let s = n.as_slice();
    equals_str(s, "panfrost") || equals_str(s, "lima") || equals_str(s, "freedreno")
        || equals_str(s, "msm") || equals_str(s, "vc4") || equals_str(s, "v3d")
        || equals_str(s, "etnaviv") || equals_str(s, "pvr") || equals_str(s, "tegra")
        || equals_str(s, "host1x")
}

/// The vendor label and driver label of a kernel GPU driver.
pub open spec fn arm_vendor_of(driver: Seq<char>) -> (Seq<char>, Seq<char>) {
    if driver == "panfrost"@ {
        ("ARM Mali"@, "panfrost"@)
    } else if driver == "lima"@ {
        ("ARM Mali"@, "lima"@)
    } else if driver == "freedreno"@ {
        ("Qualcomm Adreno"@, "freedreno"@)
    } else if driver == "msm"@ {
        ("Qualcomm Adreno"@, "msm"@)
    } else if driver == "vc4"@ {
        ("Broadcom VideoCore"@, "vc4"@)
    } else if driver == "v3d"@ {
        ("Broadcom VideoCore"@, "v3d"@)
    } else if driver == "etnaviv"@ {
        ("Vivante"@, "etnaviv"@)
    } else if driver == "pvr"@ {
        ("Imagination PowerVR"@, "pvr"@)
    } else if driver == "tegra"@ || driver == "host1x"@ {
        ("NVIDIA Tegra"@, "tegra"@)
    } else {
        ("ARM GPU"@, "unknown"@)
    }
}

/// Map a kernel GPU driver to a human-readable vendor + driver label.
pub fn arm_vendor(driver: &str) -> (r: (&'static str, &'static str))
    ensures
        (r.0@, r.1@) == arm_vendor_of(driver@),
{
    let d = to_chars(driver);
    let s = d.as_slice();
    if equals_str(s, "panfrost") {
        ("ARM Mali", "panfrost")
    } else if equals_str(s, "lima") {
        ("ARM Mali", "lima")
    } else if equals_str(s, "freedreno") {
        ("Qualcomm Adreno", "freedreno")
    } else if equals_str(s, "msm") {
        ("Qualcomm Adreno", "msm")
    } else if equals_str(s, "vc4") {
        ("Broadcom VideoCore", "vc4")
    } else if equals_str(s, "v3d") {
        ("Broadcom VideoCore", "v3d")
    } else if equals_str(s, "etnaviv") {
        ("Vivante", "etnaviv")
    } else if equals_str(s, "pvr") {
        ("Imagination PowerVR", "pvr")
    } else if equals_str(s, "tegra") || equals_str(s, "host1x") {
        ("NVIDIA Tegra", "tegra")
    } else {
        ("ARM GPU", "unknown")
    }
}

/// The vendors whose cards the collector reads.
#[derive(Clone, Copy, Debug, PartialEq, Eq, Structural)]
pub enum GpuVendor {
    Amd,
    Intel,
    Arm,
}

/// The view of an optional string slice.
pub open spec fn opt_view(o: Option<&str>) -> Option<Seq<char>> {
    match o {
        Some(s) => Some(s@),
        None => None,
    }
}

/// The vendor of a DRM card from the text of its PCI `vendor` file and the
/// name of its kernel driver: AMD for vendor id 0x1002, Intel for 0x8086,
/// and otherwise ARM only for a known ARM GPU driver.
pub open spec fn card_vendor(vendor_id: Seq<char>, driver: Option<Seq<char>>) -> Option<GpuVendor> {
    let v = trim(vendor_id);
    if v == "0x1002"@ {
        Some(GpuVendor::Amd)
    } else if v == "0x8086"@ {
        Some(GpuVendor::Intel)
    } else {
        match driver {
            Some(d) => if is_arm_driver_name(d) {
                Some(GpuVendor::Arm)
            } else {
                None
            },
            None => None,
        }
    }
}

/// Decide which vendor's list a DRM card belongs to. Virtual GPUs
/// (virtio-gpu, qxl, vmwgfx) and display-only controllers belong to none.
pub fn classify_card(vendor_id: &str, driver: Option<&str>) -> (r: Option<GpuVendor>)
    ensures
        r == card_vendor(vendor_id@, opt_view(driver)),
{
    let chars = to_chars(vendor_id);
    let v = trim_chars(chars.as_slice());
    if equals_str(v.as_slice(), "0x1002") {
        Some(GpuVendor::Amd)
    } else if equals_str(v.as_slice(), "0x8086") {
        Some(GpuVendor::Intel)
    } else {
        match driver {
            Some(d) => if is_arm_driver(d) {
                Some(GpuVendor::Arm)
            } else {
                None
            },
            None => None,
        }
    }
}

/// The label of a device, from the text of its `label` file: the trimmed
/// text, unless it is empty.
pub open spec fn device_label(text: Seq<char>) -> Option<Seq<char>> {
    if trim(text).len() > 0 {
        Some(trim(text))
    } else {
        None
    }
}

/// The model name a device's `label` file gives, if any.
pub fn pci_label(text: &str) -> (r: Option<String>)
    ensures
        r matches Some(l) ==> device_label(text@) == Some(l@),
        r is None ==> device_label(text@) is None,
{
    let chars = to_chars(text);
    let t = trim_chars(chars.as_slice());
    if t.len() > 0 {
        Some(string_from_chars(t.as_slice()))
    } else {
        None
    }
}

/// The model name of a device: its label, or else the name of its drm card
/// directory.
pub open spec fn model_name_of(label_text: Option<Seq<char>>, card_dir: Option<Seq<char>>) -> Option<Seq<char>> {
    match label_text {
        Some(t) => match device_label(t) {
            Some(l) => Some(l),
            None => card_dir,
        },
        None => card_dir,
    }
}

/// The model name of a device, from the text of its `label` file (if it
/// could be read) and the name of its drm card directory (if the path has
/// one).
pub fn pci_model(label_text: Option<&str>, card_dir: Option<&str>) -> (r: Option<String>)
    ensures
        r matches Some(n) ==> model_name_of(opt_view(label_text), opt_view(card_dir)) == Some(n@),
        r is None ==> model_name_of(opt_view(label_text), opt_view(card_dir)) is None,
{
    if let Some(t) = label_text {
        if let Some(l) = pci_label(t) {
            return Some(l);
        }
    }
    match card_dir {
        Some(d) => Some(String::from_str(d)),
        None => None,
    }
}

/// The name shown for a GPU: its model name, or else the vendor followed by
/// ` GPU`.
pub open spec fn gpu_name_of(model: Option<Seq<char>>, vendor: Seq<char>) -> Seq<char> {
    match model {
        Some(m) => m,
        None => vendor + " GPU"@,
    }
}

/// The name shown for a GPU.
pub fn gpu_name(model: Option<String>, vendor: &str) -> (r: String)
    ensures
        r@ == gpu_name_of(
            match model {
                Some(m) => Some(m@),
                None => None,
            },
            vendor@,
        ),
{
    match model {
        Some(m) => m,
        None => {
            let v = to_chars(vendor);
            let suffix = to_chars(" GPU");
            let name = concat_chars(v.as_slice(), suffix.as_slice());
            string_from_chars(name.as_slice())
        },
    }
}

// ---------------------------------------------------------------------------
// Ordering of Intel cards
// ---------------------------------------------------------------------------

/// The sort key of a card: its card number, or `usize::MAX` when its path
/// has none (so such cards go last).
pub open spec fn sort_key(k: Option<usize>) -> usize {
    match k {
        Some(v) => v,
        None => usize::MAX,
    }
}

/// Card `a` comes before card `b` in a stable sort by key.
pub open spec fn precedes(keys: Seq<Option<usize>>, a: usize, b: usize) -> bool {
    ||| sort_key(keys[a as int]) < sort_key(keys[b as int])
    ||| (sort_key(keys[a as int]) == sort_key(keys[b as int]) && a < b)
}

/// `order` lists each position of `keys` once, in the order of a stable sort
/// by card number.
pub open spec fn is_card_order(keys: Seq<Option<usize>>, order: Seq<usize>) -> bool {
    &&& order.len() == keys.len()
    &&& forall|i: int| 0 <= i < order.len() ==> #[trigger] order[i] < keys.len()
    &&& forall|i: int, j: int|
        0 <= i < j < order.len() ==> precedes(keys, #[trigger] order[i], #[trigger] order[j])
}

fn sort_key_of(k: Option<usize>) -> (r: usize)
    ensures
        r == sort_key(k),
{
    match k {
        Some(v) => v,
        None => usize::MAX,
    }
}

/// The order in which to list Intel cards, given the card number of each
/// (in discovery order): a stable sort by card number, cards without one
/// last, so that card 0 gets the base PMU (i915/xe), card 1 gets i915.1/xe.1,
/// etc.
pub fn card_order(keys: &[Option<usize>]) -> (r: Vec<usize>)
    ensures
        is_card_order(keys@, r@),
{
    let mut order: Vec<usize> = Vec::new();
    let mut i: usize = 0;
    while i < keys.len()
        invariant
            i <= keys@.len(),
            order@.len() == i,
            forall|x: int| 0 <= x < order@.len() ==> #[trigger] order@[x] < i,
            forall|x: int, y: int|
                0 <= x < y < order@.len() ==> precedes(keys@, #[trigger] order@[x], #[trigger] order@[y]),
        decreases keys@.len() - i,
    {
        let ki = sort_key_of(keys[i]);
        let mut p: usize = 0;
        while p < order.len() && sort_key_of(keys[order[p]]) <= ki
            invariant
                p <= order@.len(),
                order@.len() == i,
                i < keys@.len(),
                ki == sort_key(keys@[i as int]),
                forall|x: int| 0 <= x < order@.len() ==> #[trigger] order@[x] < i,
                forall|x: int| 0 <= x < p ==> sort_key(keys@[#[trigger] order@[x] as int]) <= ki,
            decreases order@.len() - p,
        {
            p += 1;
        }
        let ghost old_order = order@;
        proof {
            assert forall|x: int| p <= x < old_order.len() implies sort_key(keys@[#[trigger] old_order[x] as int]) > ki by {
                if x > p {
                    assert(precedes(keys@, old_order[p as int], old_order[x]));
                }
            }
        }
        order.insert(p, i);
        assert(order@ == old_order.insert(p as int, i));
        assert forall|x: int| 0 <= x < order@.len() implies #[trigger] order@[x] < i + 1 by {
            if x < p {
                assert(order@[x] == old_order[x]);
            } else if x > p {
                assert(order@[x] == old_order[x - 1]);
            }
        }
        assert forall|x: int, y: int| 0 <= x < y < order@.len() implies precedes(
            keys@,
            #[trigger] order@[x],
            #[trigger] order@[y],
        ) by {
            if y < p {
                assert(order@[x] == old_order[x]);
                assert(order@[y] == old_order[y]);
            } else if y == p {
                assert(order@[x] == old_order[x]);
            } else if x < p {
                assert(order@[x] == old_order[x]);
                assert(order@[y] == old_order[y - 1]);
            } else if x == p {
                assert(order@[y] == old_order[y - 1]);
            } else {
                assert(order@[x] == old_order[x - 1]);
                assert(order@[y] == old_order[y - 1]);
            }
        }
        i += 1;
    }
    order
}

// ---------------------------------------------------------------------------
// Clock frequencies
// ---------------------------------------------------------------------------

/// The first reading that is present and not zero, converted from Hz to
/// MHz.
pub open spec fn first_positive_mhz(readings: Seq<Option<u64>>) -> Option<u64>
    decreases readings.len(),
{
    if readings.len() == 0 {
        None
    } else {
        match readings[0] {
            Some(hz) if hz > 0 => Some((hz / 1_000_000) as u64),
            _ => first_positive_mhz(readings.drop_first()),
        }
    }
}

/// The current frequency in MHz of a devfreq device, from the `cur_freq`
/// readings (in Hz) of its governors, in directory order: the first present,
/// non-zero reading.
pub fn devfreq_cur_freq(readings: &[Option<u64>]) -> (r: Option<u64>)
    ensures
        r == first_positive_mhz(readings@),
{
    let mut i: usize = 0;
    assert(readings@.skip(0) == readings@);
    while i < readings.len()
        invariant
            i <= readings@.len(),
            first_positive_mhz(readings@.skip(i as int)) == first_positive_mhz(readings@),
        decreases readings@.len() - i,
    {
        assert(readings@.skip(i as int)[0] == readings@[i as int]);
        assert(readings@.skip(i as int).drop_first() == readings@.skip(i + 1));
        if let Some(hz) = readings[i] {
            if hz > 0 {
                return Some(hz / 1_000_000);
            }
        }
        i += 1;
    }
    None
}

/// The clock in MHz reported for a GPU: the first reading that is present,
/// else 0, truncated to 32 bits.
pub open spec fn clock_mhz(primary: Option<u64>, fallback: Option<u64>) -> u32 {
    let v: u64 = match primary {
        Some(p) => p,
        None => match fallback {
            Some(f) => f,
            None => 0,
        },
    };
    v as u32
}

/// Choose the clock reading of a GPU.
pub fn pick_clock_mhz(primary: Option<u64>, fallback: Option<u64>) -> (r: u32)
    ensures
        r == clock_mhz(primary, fallback),
{
    let v: u64 = match primary {
        Some(p) => p,
        None => match fallback {
            Some(f) => f,
            None => 0,
        },
    };
    #[verifier::truncate]
    (v as u32)
}

// ---------------------------------------------------------------------------
// Intel i915 / xe PMU
// ---------------------------------------------------------------------------

/// The PMU names to try, in order, for the Intel card with the given index.
/// Card 0 first tries the unnumbered names (`i915`, `xe`), then `i915.0` /
/// `xe.0`; other cards only try the numbered names.
pub open spec fn pmu_names(card_index: nat) -> Seq<Seq<char>> {
    let numbered = seq!["i915."@ + decimal(card_index), "xe."@ + decimal(card_index)];
    if card_index == 0 {
        seq!["i915"@, "xe"@] + numbered
    } else {
        numbered
    }
}

/// The PMU names to open, in order, for an Intel GPU card. On multi-GPU
/// Intel systems (e.g. Arc dGPU + integrated), each card has its own PMU
/// instance registered by the kernel driver.
pub fn pmu_candidates(card_index: usize) -> (r: Vec<String>)
    ensures
        r@.len() == pmu_names(card_index as nat).len(),
        forall|k: int| 0 <= k < r@.len() ==> #[trigger] r@[k]@ == pmu_names(card_index as nat)[k],
{
    let digits = decimal_chars(card_index as u64);
    let i915_prefix = to_chars("i915.");
    let xe_prefix = to_chars("xe.");
    let i915_n = concat_chars(i915_prefix.as_slice(), digits.as_slice());
    let xe_n = concat_chars(xe_prefix.as_slice(), digits.as_slice());
    let mut out: Vec<String> = Vec::new();
    if card_index == 0 {
        out.push(String::from_str("i915"));
        out.push(String::from_str("xe"));
    }
    out.push(string_from_chars(i915_n.as_slice()));
    out.push(string_from_chars(xe_n.as_slice()));
    out
}

/// The last readings of an Intel GPU's rc6-residency counter (nanoseconds
/// the GT spent in RC6 sleep) and of the counter's time enabled.
pub struct PmuCounters {
    pub last_rc6_ns: u64,
    pub last_time_ns: u64,
    pub primed: bool,
}

/// The interval between two readings: the growth of the rc6 counter and the
/// growth of the enabled time, each clamped at zero.
pub struct PmuInterval {
    pub idle_ns: u64,
    pub elapsed_ns: u64,
}

/// `a - b`, or 0 when `b > a`.
pub open spec fn saturating_sub(a: u64, b: u64) -> u64 {
    if a >= b {
        (a - b) as u64
    } else {
        0
    }
}

impl PmuCounters {
    /// No reading taken yet.
    pub fn new() -> (r: PmuCounters)
        ensures
            !r.primed,
            r.last_rc6_ns == 0,
            r.last_time_ns == 0,
    {
        PmuCounters { last_rc6_ns: 0, last_time_ns: 0, primed: false }
    }

    /// Record a reading of the counter and of its time enabled. The first
    /// reading only primes the counters, and an interval in which no time
    /// elapsed gives nothing to divide by: in both cases the utilisation to
    /// report is 0 % and `None` is returned. Otherwise the interval since
    /// the previous reading is returned, from which busy% is
    /// `1 - idle_ns / elapsed_ns`.
    pub fn advance(&mut self, rc6_ns: u64, time_ns: u64) -> (r: Option<PmuInterval>)
        ensures
            final(self).primed,
            final(self).last_rc6_ns == rc6_ns,
            final(self).last_time_ns == time_ns,
            !old(self).primed ==> r is None,
            old(self).primed ==> (r is None <==> saturating_sub(time_ns, old(self).last_time_ns) == 0),
            r matches Some(iv) ==> iv.idle_ns == saturating_sub(rc6_ns, old(self).last_rc6_ns)
                && iv.elapsed_ns == saturating_sub(time_ns, old(self).last_time_ns),
    {
        if !self.primed {
            self.last_rc6_ns = rc6_ns;
            self.last_time_ns = time_ns;
            self.primed = true;
            return None;
        }
        let d_rc6 = rc6_ns.saturating_sub(self.last_rc6_ns);
        let d_time = time_ns.saturating_sub(self.last_time_ns);
        self.last_rc6_ns = rc6_ns;
        self.last_time_ns = time_ns;
        if d_time == 0 {
            return None;
        }
        Some(PmuInterval { idle_ns: d_rc6, elapsed_ns: d_time })
    }
}

// ---------------------------------------------------------------------------
// Laws
// ---------------------------------------------------------------------------

/// The first CPU of a cpumask without whitespace that starts with CPU `n`,
/// followed by nothing, by a range (`-`) or by a list (`,`), is `n`.
pub proof fn law_first_cpu_of_mask(n: u32, rest: Seq<char>)
    requires
        rest.len() == 0 || rest[0] == '-' || rest[0] == ',',
        forall|i: int| 0 <= i < rest.len() ==> !is_white_space(#[trigger] rest[i]),
    ensures
        first_cpu(decimal(n as nat) + rest) == Some(n),
{
    let d = decimal(n as nat);
    let s = d + rest;
    lemma_decimal_parses(n as nat);
    lemma_decimal_roundtrip(n as nat, u32::MAX as nat);
    assert forall|k: int| 0 <= k < d.len() implies s[k] != '-' && s[k] != ',' by {
        assert(s[k] == d[k]);
        lemma_digit_not_space(d[k], 10);
    }
    assert(s[0] == d[0]);
    lemma_digit_not_space(d[0], 10);
    if rest.len() > 0 {
        assert(s.last() == rest[rest.len() - 1]);
    } else {
        assert(s.last() == d.last());
        lemma_digit_not_space(d.last(), 10);
    }
    lemma_trim_unchanged(s);
    lemma_first_field(s, '-', ',', d.len() as int);
    assert(s.take(d.len() as int) == d);
}

/// A card directory named after its number reads back as that number.
pub proof fn law_card_index_roundtrip(n: usize)
    ensures
        card_index("card"@ + decimal(n as nat)) == Some(n),
{
    reveal_strlit("card");
    let s = "card"@ + decimal(n as nat);
    lemma_decimal_roundtrip(n as nat, usize::MAX as nat);
    assert(s.take(4) == "card"@);
    assert(s.skip(4) == decimal(n as nat));
}

/// The drivers accepted as ARM GPU drivers are exactly those with a vendor
/// label of their own.
pub proof fn law_arm_drivers_have_vendor(driver: Seq<char>)
    ensures
        is_arm_driver_name(driver) <==> arm_vendor_of(driver).1 != "unknown"@,
{
    reveal_strlit("panfrost");
    reveal_strlit("lima");
    reveal_strlit("freedreno");
    reveal_strlit("msm");
    reveal_strlit("vc4");
    reveal_strlit("v3d");
    reveal_strlit("etnaviv");
    reveal_strlit("pvr");
    reveal_strlit("tegra");
    reveal_strlit("host1x");
    reveal_strlit("unknown");
    assert("panfrost"@ != "unknown"@) by {
        assert("panfrost"@.len() != 7 || "panfrost"@[0] != 'u');
    }
    assert("lima"@ != "unknown"@) by {
        assert("lima"@.len() != 7 || "lima"@[0] != 'u');
    }
    assert("freedreno"@ != "unknown"@) by {
        assert("freedreno"@.len() != 7 || "freedreno"@[0] != 'u');
    }
    assert("msm"@ != "unknown"@) by {
        assert("msm"@.len() != 7 || "msm"@[0] != 'u');
    }
    assert("vc4"@ != "unknown"@) by {
        assert("vc4"@.len() != 7 || "vc4"@[0] != 'u');
    }
    assert("v3d"@ != "unknown"@) by {
        assert("v3d"@.len() != 7 || "v3d"@[0] != 'u');
    }
    assert("etnaviv"@ != "unknown"@) by {
        assert("etnaviv"@.len() != 7 || "etnaviv"@[0] != 'u');
    }
    assert("pvr"@ != "unknown"@) by {
        assert("pvr"@.len() != 7 || "pvr"@[0] != 'u');
    }
    assert("tegra"@ != "unknown"@) by {
        assert("tegra"@.len() != 7 || "tegra"@[0] != 'u');
    }
}


/// The ARM GPU drivers are exactly these ten kernel drivers, and each has
/// this vendor label and driver label (tegra and host1x share tegra's);
/// every other driver is an unknown ARM GPU.
pub proof fn law_arm_driver_table(driver: Seq<char>)
    ensures
        is_arm_driver_name(driver) <==> set![
            "panfrost"@, "lima"@, "freedreno"@, "msm"@, "vc4"@, "v3d"@, "etnaviv"@, "pvr"@,
            "tegra"@, "host1x"@,
        ].contains(driver),
        driver == "panfrost"@ ==> arm_vendor_of(driver) == ("ARM Mali"@, "panfrost"@),
        driver == "lima"@ ==> arm_vendor_of(driver) == ("ARM Mali"@, "lima"@),
        driver == "freedreno"@ ==> arm_vendor_of(driver) == ("Qualcomm Adreno"@, "freedreno"@),
        driver == "msm"@ ==> arm_vendor_of(driver) == ("Qualcomm Adreno"@, "msm"@),
        driver == "vc4"@ ==> arm_vendor_of(driver) == ("Broadcom VideoCore"@, "vc4"@),
        driver == "v3d"@ ==> arm_vendor_of(driver) == ("Broadcom VideoCore"@, "v3d"@),
        driver == "etnaviv"@ ==> arm_vendor_of(driver) == ("Vivante"@, "etnaviv"@),
        driver == "pvr"@ ==> arm_vendor_of(driver) == ("Imagination PowerVR"@, "pvr"@),
        driver == "tegra"@ ==> arm_vendor_of(driver) == ("NVIDIA Tegra"@, "tegra"@),
        driver == "host1x"@ ==> arm_vendor_of(driver) == ("NVIDIA Tegra"@, "tegra"@),
        !is_arm_driver_name(driver) ==> arm_vendor_of(driver) == ("ARM GPU"@, "unknown"@),
{
    reveal_strlit("panfrost");
    reveal_strlit("lima");
    reveal_strlit("freedreno");
    reveal_strlit("msm");
    reveal_strlit("vc4");
    reveal_strlit("v3d");
    reveal_strlit("etnaviv");
    reveal_strlit("pvr");
    reveal_strlit("tegra");
    reveal_strlit("host1x");
    assert("panfrost"@.len() == 8 && "lima"@.len() == 4 && "freedreno"@.len() == 9);
    assert("msm"@.len() == 3 && "vc4"@.len() == 3 && "v3d"@.len() == 3 && "pvr"@.len() == 3);
    assert("etnaviv"@.len() == 7 && "tegra"@.len() == 5 && "host1x"@.len() == 6);
    assert("msm"@[0] == 'm' && "vc4"@[0] == 'v' && "v3d"@[0] == 'v' && "pvr"@[0] == 'p');
    assert("vc4"@[1] == 'c' && "v3d"@[1] == '3');
}

/// A card with a known ARM GPU driver and no AMD or Intel vendor id is
/// listed as an ARM GPU, whatever its vendor id otherwise says.
pub proof fn law_arm_driver_cards_listed(vendor_id: Seq<char>, driver: Seq<char>)
    requires
        is_arm_driver_name(driver),
        trim(vendor_id) != "0x1002"@,
        trim(vendor_id) != "0x8086"@,
    ensures
        card_vendor(vendor_id, Some(driver)) == Some(GpuVendor::Arm),
{
}

/// Card 0 tries the unnumbered PMU names first, then its numbered ones;
/// every other card tries exactly its own numbered names, `i915.N` then
/// `xe.N`.
pub proof fn law_pmu_names_per_card(n: nat)
    ensures
        n == 0 ==> pmu_names(n) == seq!["i915"@, "xe"@, "i915.0"@, "xe.0"@],
        n != 0 ==> pmu_names(n) == seq!["i915."@ + decimal(n), "xe."@ + decimal(n)],
{
    reveal_strlit("i915.");
    reveal_strlit("xe.");
    reveal_strlit("i915.0");
    reveal_strlit("xe.0");
    if n == 0 {
        assert(decimal(0) == seq!['0']);
        assert("i915."@ + decimal(0) =~= "i915.0"@);
        assert("xe."@ + decimal(0) =~= "xe.0"@);
        assert(seq!["i915"@, "xe"@] + seq!["i915.0"@, "xe.0"@] =~= seq!["i915"@, "xe"@, "i915.0"@, "xe.0"@]);
    }
}

/// Two different cards never try the same PMU name, so no card reads
/// another card's counters.
pub proof fn law_pmu_names_disjoint(n: nat, m: nat, i: int, j: int)
    requires
        n != m,
        0 <= i < pmu_names(n).len(),
        0 <= j < pmu_names(m).len(),
    ensures
        pmu_names(n)[i] != pmu_names(m)[j],
{
    reveal_strlit("i915");
    reveal_strlit("xe");
    reveal_strlit("i915.");
    reveal_strlit("xe.");
    lemma_decimal_roundtrip(n, n);
    lemma_decimal_roundtrip(m, n + m);
    lemma_decimal_roundtrip(n, n + m);
    let a = pmu_names(n)[i];
    let b = pmu_names(m)[j];
    if a == b {
        let dn = decimal(n);
        let dm = decimal(m);
        // Which of the four shapes each name has.
        if a == "i915."@ + dn && b == "i915."@ + dm {
            assert(a.skip(5) == dn);
            assert(b.skip(5) == dm);
        } else if a == "xe."@ + dn && b == "xe."@ + dm {
            assert(a.skip(3) == dn);
            assert(b.skip(3) == dm);
        } else {
            assert(a[0] == b[0]);
            assert(a.len() == b.len());
            if n == 0 {
                assert(dm.len() > 0);
            } else {
                assert(dn.len() > 0);
            }
        }
    }
}

/// A card is AMD when its trimmed vendor id is `0x1002` and Intel when it
/// is `0x8086`, whatever its driver; any other card is an ARM GPU exactly
/// when its driver is a known ARM GPU driver, and is left out otherwise.
pub proof fn law_card_vendor_ids(vendor_id: Seq<char>, driver: Option<Seq<char>>)
    ensures
        trim(vendor_id) == "0x1002"@ ==> card_vendor(vendor_id, driver) == Some(GpuVendor::Amd),
        trim(vendor_id) == "0x8086"@ ==> card_vendor(vendor_id, driver) == Some(GpuVendor::Intel),
        trim(vendor_id) != "0x1002"@ && trim(vendor_id) != "0x8086"@ ==> (card_vendor(vendor_id, driver)
            == Some(GpuVendor::Arm) <==> (driver matches Some(d) && is_arm_driver_name(d))),
        trim(vendor_id) != "0x1002"@ && trim(vendor_id) != "0x8086"@ ==> card_vendor(vendor_id, driver)
            != Some(GpuVendor::Amd) && card_vendor(vendor_id, driver) != Some(GpuVendor::Intel),
{
    reveal_strlit("0x1002");
    reveal_strlit("0x8086");
    assert("0x1002"@[2] == '1' && "0x8086"@[2] == '8');
}

/// `card` followed by a number names a card; the same followed by `-` and
/// anything (a connector such as `card0-HDMI-A-1`) does not, and neither
/// does a name that does not start with `card`.
pub proof fn law_card_entries(n: nat, rest: Seq<char>, name: Seq<char>)
    ensures
        is_card_entry_name("card"@ + decimal(n)),
        !is_card_entry_name("card"@ + decimal(n) + "-"@ + rest),
        name.len() < 4 || name.take(4) != "card"@ ==> !is_card_entry_name(name),
{
    reveal_strlit("card");
    reveal_strlit("-");
    let a = "card"@ + decimal(n);
    lemma_decimal_parses(n);
    assert(a.take(4) == "card"@);
    assert forall|k: int| 0 <= k < a.len() implies a[k] != '-' by {
        if k >= 4 {
            assert(a[k] == decimal(n)[k - 4]);
            lemma_digit_not_space(decimal(n)[k - 4], 10);
        }
    }
    lemma_index_of_absent(a, '-');
    let b = a + "-"@ + rest;
    assert(b.take(4) == "card"@);
    assert(b[a.len() as int] == '-');
    assert forall|k: int| 0 <= k < a.len() implies b[k] != '-' by {
        assert(b[k] == a[k]);
    }
    lemma_index_of_found(b, '-', a.len() as int);
}

/// The devfreq clock is the first reading that is present and not zero,
/// in MHz (rounded down from Hz); when no reading is, there is none.
pub proof fn law_devfreq_first_positive(readings: Seq<Option<u64>>, i: int)
    ensures
        0 <= i < readings.len() && readings[i] is Some && readings[i]->0 > 0 && (forall|k: int|
            0 <= k < i ==> (#[trigger] readings[k] is Some ==> readings[k]->0 == 0))
            ==> first_positive_mhz(readings) == Some((readings[i]->0 / 1_000_000) as u64),
        (forall|k: int| 0 <= k < readings.len() ==> (#[trigger] readings[k] is Some ==> readings[k]->0 == 0))
            ==> first_positive_mhz(readings) is None,
    decreases readings.len(),
{
    if readings.len() > 0 {
        law_devfreq_first_positive(readings.drop_first(), i - 1);
        if 0 < i < readings.len() && (forall|k: int| 0 <= k < i ==> (#[trigger] readings[k] is Some ==> readings[k]->0 == 0)) {
            assert(readings[0] is Some ==> readings[0]->0 == 0);
            assert forall|k: int| 0 <= k < i - 1 implies (#[trigger] readings.drop_first()[k] is Some ==> readings.drop_first()[k]->0 == 0) by {
                assert(readings.drop_first()[k] == readings[k + 1]);
            }
        }
        if forall|k: int| 0 <= k < readings.len() ==> (#[trigger] readings[k] is Some ==> readings[k]->0 == 0) {
            assert(readings[0] is Some ==> readings[0]->0 == 0);
            assert forall|k: int| 0 <= k < readings.len() - 1 implies (#[trigger] readings.drop_first()[k] is Some ==> readings.drop_first()[k]->0 == 0) by {
                assert(readings.drop_first()[k] == readings[k + 1]);
            }
        }
    }
}

/// The clock shown is the primary reading when there is one, else the
/// fallback reading, else 0.
pub proof fn law_clock_choice(primary: Option<u64>, fallback: Option<u64>)
    ensures
        primary is Some && primary->0 <= u32::MAX ==> clock_mhz(primary, fallback) == primary->0,
        primary is None && fallback is Some && fallback->0 <= u32::MAX ==> clock_mhz(primary, fallback)
            == fallback->0,
        primary is None && fallback is None ==> clock_mhz(primary, fallback) == 0,
{
}

/// A card order lists every card: each position of `keys` occurs in it.
pub proof fn law_card_order_lists_every_card(keys: Seq<Option<usize>>, order: Seq<usize>, i: int)
    requires
        is_card_order(keys, order),
        0 <= i < keys.len(),
    ensures
        exists|p: int| 0 <= p < order.len() && order[p] as int == i,
{
    let n = keys.len() as int;
    let s = order.map_values(|x: usize| x as int);
    assert forall|a: int, b: int| 0 <= a < s.len() && 0 <= b < s.len() && a != b implies s[a] != s[b] by {
        if a < b {
            assert(precedes(keys, order[a], order[b]));
        } else {
            assert(precedes(keys, order[b], order[a]));
        }
    }
    assert(s.no_duplicates());
    s.unique_seq_to_set();
    vstd::set_lib::lemma_int_range(0, n);
    let range = vstd::set_lib::set_int_range(0, n);
    assert(s.to_set().subset_of(range)) by {
        assert forall|x: int| s.to_set().contains(x) implies range.contains(x) by {
            let p = choose|p: int| 0 <= p < s.len() && s[p] == x;
            assert(order[p] < keys.len());
        }
    }
    vstd::seq_lib::seq_to_set_is_finite(s);
    vstd::set_lib::lemma_subset_equality(s.to_set(), range);
    assert(range.contains(i));
    assert(s.to_set().contains(i));
    let p = choose|p: int| 0 <= p < s.len() && s[p] == i;
    assert(order[p] as int == i);
}

/// When card 0 is among the cards, it is listed first (and so gets the
/// base PMU).
pub proof fn law_card_zero_first(keys: Seq<Option<usize>>, order: Seq<usize>, i: int)
    requires
        is_card_order(keys, order),
        0 <= i < keys.len(),
        keys[i] == Some(0usize),
    ensures
        keys[order[0] as int] == Some(0usize),
{
    law_card_order_lists_every_card(keys, order, i);
    let p = choose|p: int| 0 <= p < order.len() && order[p] as int == i;
    if p > 0 {
        assert(precedes(keys, order[0], order[p]));
    }
    assert(sort_key(keys[order[0] as int]) == 0);
}

} // verus!
