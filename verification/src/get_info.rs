//! The compute half of the metric collectors. Each function here takes the
//! raw platform readings as plain values (the surrounding program performs
//! the actual operating-system queries) and derives the figures that the
//! snapshot builders put into a report: used amounts, aggregates across
//! disks and interfaces, per-interval network rates, CPU description lines
//! and best-effort defaults for readings that failed.

use vstd::prelude::*;

use crate::rate_tracker::{counter_delta, NetworkRateTracker};
use crate::text::{cpu_description, cpu_description_string, frequency_label, frequency_string};

verus! {

/// Failure of a collaborator-fallible collector while a state sample is
/// built. Only the network counters and the uptime/load readings may fail;
/// every other collector degrades to a zero or empty value instead.
#[derive(Clone, Copy, Debug, PartialEq, Eq, Structural)]
pub enum AgentError {
    /// The cumulative network byte counters could not be read.
    NetworkStats,
    /// The uptime or the load-average figures could not be read.
    UptimeLoad,
}

/// A raw memory reading: totals and free amounts for memory and swap, in
/// bytes, exactly as the platform reports them.
#[derive(Clone, Copy, Debug)]
pub struct MemoryReading {
    pub total_mem: u64,
    pub free_mem: u64,
    pub total_swap: u64,
    pub free_swap: u64,
}

/// A raw uptime reading: seconds since boot and the three load-average
/// figures, each scaled to hundredths.
#[derive(Clone, Copy, Debug)]
pub struct UptimeReading {
    pub uptime_secs: u64,
    pub load_one_centi: u32,
    pub load_five_centi: u32,
    pub load_fifteen_centi: u32,
}

/// A virtualization classification as the platform reports it: its name and
/// whether it is a virtual machine or a container.
#[derive(Clone, Debug)]
pub struct VirtReading {
    pub name: String,
    pub is_vm: bool,
    pub is_container: bool,
}

/// Subtraction of unsigned readings that bottoms out at zero instead of
/// wrapping, for used = total - free figures.
pub open spec fn sat_sub_u64(a: u64, b: u64) -> u64 {
    if b <= a {
        (a - b) as u64
    } else {
        0u64
    }
}

/// Clamp a mathematical sum into the unsigned range of a counter.
pub open spec fn clamp_u64(x: int) -> u64 {
    if x > u64::MAX {
        u64::MAX as u64
    } else if x < 0 {
        0u64
    } else {
        x as u64
    }
}

/// Sum of the first components of a sequence of counter pairs.
pub open spec fn sum_fst(s: Seq<(u64, u64)>) -> int
    decreases s.len(),
{
    if s.len() == 0 {
        0
    } else {
        sum_fst(s.drop_last()) + s.last().0
    }
}

/// Sum of the second components of a sequence of counter pairs.
pub open spec fn sum_snd(s: Seq<(u64, u64)>) -> int
    decreases s.len(),
{
    if s.len() == 0 {
        0
    } else {
        sum_snd(s.drop_last()) + s.last().1
    }
}

/// Sum both components of a list of per-item counter pairs, clamped into
/// the counter range (the platform never comes near the clamp).
fn sum_pairs(items: &Vec<(u64, u64)>) -> (r: (u64, u64))
    ensures
        r.0 == clamp_u64(sum_fst(items@)),
        r.1 == clamp_u64(sum_snd(items@)),
{
    let mut acc_fst: u128 = 0;
    let mut acc_snd: u128 = 0;
    let mut i: usize = 0;
    proof {
        assert(items@.take(0).len() == 0);
    }
    while i < items.len()
        invariant
            0 <= i <= items.len(),
            acc_fst == sum_fst(items@.take(i as int)),
            acc_snd == sum_snd(items@.take(i as int)),
            acc_fst <= i * u64::MAX,
            acc_snd <= i * u64::MAX,
        decreases items.len() - i,
    {
        let pair = items[i];
        proof {
            assert(items@.take(i + 1).drop_last() =~= items@.take(i as int));
            assert(items@.take(i + 1).last() == items@[i as int]);
        }
        acc_fst = acc_fst + pair.0 as u128;
        acc_snd = acc_snd + pair.1 as u128;
        i = i + 1;
    }
    proof {
        assert(items@.take(items@.len() as int) =~= items@);
    }
    let fst: u64 = if acc_fst > u64::MAX as u128 {
        u64::MAX
    } else {
        acc_fst as u64
    };
    let snd: u64 = if acc_snd > u64::MAX as u128 {
        u64::MAX
    } else {
        acc_snd as u64
    };
    (fst, snd)
}

/// Derive the used amounts from a raw memory reading. The result carries,
/// in order: total memory, free memory, used memory, total swap, free swap,
/// used swap. Used amounts bottom out at zero.
pub fn get_mem_info(reading: &MemoryReading) -> (r: (u64, u64, u64, u64, u64, u64))
    ensures
        r.0 == reading.total_mem,
        r.1 == reading.free_mem,
        r.2 == sat_sub_u64(reading.total_mem, reading.free_mem),
        r.3 == reading.total_swap,
        r.4 == reading.free_swap,
        r.5 == sat_sub_u64(reading.total_swap, reading.free_swap),
{
    let used_mem = if reading.free_mem <= reading.total_mem {
        reading.total_mem - reading.free_mem
    } else {
        0
    };
    let used_swap = if reading.free_swap <= reading.total_swap {
        reading.total_swap - reading.free_swap
    } else {
        0
    };
    (
        reading.total_mem,
        reading.free_mem,
        used_mem,
        reading.total_swap,
        reading.free_swap,
        used_swap,
    )
}

/// The reported kernel version: the reading itself, or a fixed placeholder
/// when it is unavailable.
pub open spec fn kernel_label(kernel_version: Option<String>) -> Seq<char> {
    match kernel_version {
        Option::Some(k) => k@,
        Option::None => "Unknown"@,
    }
}

/// Pair the distribution name with the kernel version, defaulting a missing
/// kernel version to a fixed placeholder.
pub fn get_platform_info(distro: String, kernel_version: Option<String>) -> (r: (String, String))
    ensures
        r.0@ == distro@,
        r.1@ == kernel_label(kernel_version),
{
    match kernel_version {
        Option::Some(k) => (distro, k),
        Option::None => (distro, String::from_str("Unknown")),
    }
}

/// Aggregate per-disk capacity readings (total space, available space) into
/// total, available and used figures across all mounted volumes.
pub fn get_disk_info(disks: &Vec<(u64, u64)>) -> (r: (u64, u64, u64))
    ensures
        r.0 == clamp_u64(sum_fst(disks@)),
        r.1 == clamp_u64(sum_snd(disks@)),
        r.2 == sat_sub_u64(r.0, r.1),
{
    let (space, available) = sum_pairs(disks);
    let used = if available <= space {
        space - available
    } else {
        0
    };
    (space, available, used)
}

/// The reported boot timestamp: the reading itself, or zero when it is
/// unavailable.
pub open spec fn boot_time_value(reading: Option<u64>) -> u64 {
    match reading {
        Option::Some(t) => t,
        Option::None => 0u64,
    }
}

/// The boot timestamp in Unix epoch seconds, zero when the reading is
/// unavailable.
pub fn get_boot_time(reading: Option<u64>) -> (r: u64)
    ensures
        r == boot_time_value(reading),
{
    match reading {
        Option::Some(t) => t,
        Option::None => 0,
    }
}

/// The reported public IP address: the looked-up address, or the empty
/// string when the lookup failed.
pub open spec fn ip_label(lookup: Option<String>) -> Seq<char> {
    match lookup {
        Option::Some(ip) => ip@,
        Option::None => Seq::<char>::empty(),
    }
}

/// The best-effort public IP address: a failed lookup is absorbed into an
/// empty string, never an error.
pub fn get_ip_info(lookup: Option<String>) -> (r: String)
    ensures
        r@ == ip_label(lookup),
{
    match lookup {
        Option::Some(ip) => ip,
        Option::None => String::new(),
    }
}

/// Index of the first entry of a brand table whose key is `x`, or the
/// table's length when no entry has that key.
pub open spec fn brand_index(acc: Seq<(Seq<char>, nat)>, x: Seq<char>) -> int
    decreases acc.len(),
{
    if acc.len() == 0 {
        0
    } else if acc[0].0 == x {
        0
    } else {
        1 + brand_index(acc.skip(1), x)
    }
}

/// A brand table with one occurrence of `x` added: the count of the entry
/// keyed by `x` is bumped, or a fresh entry with count one is appended.
pub open spec fn insert_brand(acc: Seq<(Seq<char>, nat)>, x: Seq<char>) -> Seq<(Seq<char>, nat)> {
    let i = brand_index(acc, x);
    if i < acc.len() {
        acc.update(i, (x, (acc[i].1 + 1) as nat))
    } else {
        acc.push((x, 1nat))
    }
}

/// The brand table of a sequence of per-CPU brand strings: the distinct
/// brands in order of first occurrence, each with the number of logical
/// CPUs that carry it.
pub open spec fn counted_brands(s: Seq<Seq<char>>) -> Seq<(Seq<char>, nat)>
    decreases s.len(),
{
    if s.len() == 0 {
        Seq::empty()
    } else {
        insert_brand(counted_brands(s.drop_last()), s.last())
    }
}

pub proof fn lemma_brand_index_range(acc: Seq<(Seq<char>, nat)>, x: Seq<char>)
    ensures
        0 <= brand_index(acc, x) <= acc.len(),
        brand_index(acc, x) < acc.len() ==> acc[brand_index(acc, x)].0 == x,
        forall|k: int| 0 <= k < brand_index(acc, x) ==> acc[k].0 != x,
    decreases acc.len(),
{
    if acc.len() > 0 && acc[0].0 != x {
        lemma_brand_index_range(acc.skip(1), x);
        assert forall|k: int| 0 <= k < brand_index(acc, x) implies acc[k].0 != x by {
            if k > 0 {
                assert(acc.skip(1)[k - 1] == acc[k]);
            }
        }
    }
}

/// The brand table has distinct keys, and each count lies between one and
/// the number of readings.
pub proof fn lemma_counted_brands_invariant(s: Seq<Seq<char>>)
    ensures
        counted_brands(s).len() <= s.len(),
        forall|k1: int, k2: int|
            0 <= k1 < k2 < counted_brands(s).len() ==> counted_brands(s)[k1].0
                != counted_brands(s)[k2].0,
        forall|k: int|
            0 <= k < counted_brands(s).len() ==> 1 <= (#[trigger] counted_brands(s)[k]).1
                <= s.len(),
    decreases s.len(),
{
    if s.len() > 0 {
        lemma_counted_brands_invariant(s.drop_last());
        let prev = counted_brands(s.drop_last());
        let x = s.last();
        lemma_brand_index_range(prev, x);
    }
}

/// How often a brand string occurs among the per-CPU readings.
pub open spec fn occurrences(s: Seq<Seq<char>>, x: Seq<char>) -> nat
    decreases s.len(),
{
    if s.len() == 0 {
        0nat
    } else {
        occurrences(s.drop_last(), x) + (if s.last() == x {
            1nat
        } else {
            0nat
        })
    }
}

/// The brand table is faithful: a brand has an entry exactly when it occurs
/// among the readings, and its entry counts exactly its occurrences.
pub proof fn lemma_counted_brands_counts(s: Seq<Seq<char>>, x: Seq<char>)
    ensures
        brand_index(counted_brands(s), x) < counted_brands(s).len() <==> occurrences(s, x) > 0,
        brand_index(counted_brands(s), x) < counted_brands(s).len() ==> counted_brands(
            s,
        )[brand_index(counted_brands(s), x)].1 == occurrences(s, x),
    decreases s.len(),
{
    if s.len() > 0 {
        let dl = s.drop_last();
        let y = s.last();
        lemma_counted_brands_counts(dl, x);
        let c = counted_brands(dl);
        let c2 = counted_brands(s);
        let bi_x = brand_index(c, x);
        let bi_y = brand_index(c, y);
        lemma_brand_index_range(c, x);
        lemma_brand_index_range(c, y);
        lemma_brand_index_range(c2, x);
        if y == x {
            if bi_x < c.len() {
                // the entry of x is bumped in place
                assert(c2 =~= c.update(bi_x, (x, (c[bi_x].1 + 1) as nat)));
                assert(c2[bi_x].0 == x);
                assert(forall|k: int| 0 <= k < bi_x ==> c2[k].0 == c[k].0 && c[k].0 != x);
                if brand_index(c2, x) < bi_x {
                    assert(c2[brand_index(c2, x)].0 == x);
                }
                assert(brand_index(c2, x) == bi_x);
            } else {
                // a fresh entry for x is appended
                assert(c2 =~= c.push((x, 1nat)));
                assert(c2[c.len() as int].0 == x);
                assert(forall|k: int| 0 <= k < c.len() ==> c2[k].0 == c[k].0 && c[k].0 != x);
                if brand_index(c2, x) < c.len() {
                    assert(c2[brand_index(c2, x)].0 == x);
                }
                assert(brand_index(c2, x) == c.len());
                assert(occurrences(dl, x) == 0);
            }
        } else {
            // the entry of x, if any, is untouched
            if bi_y < c.len() {
                assert(c2 =~= c.update(bi_y, (y, (c[bi_y].1 + 1) as nat)));
                assert(forall|k: int|
                    0 <= k < c.len() ==> (#[trigger] c2[k]).0 == c[k].0 && (c[k].0 == x ==> c2[k]
                        == c[k]));
            } else {
                assert(c2 =~= c.push((y, 1nat)));
                assert(forall|k: int| 0 <= k < c.len() ==> (#[trigger] c2[k]) == c[k]);
                assert(c2[c.len() as int].0 == y);
            }
            if bi_x < c.len() {
                assert(c2[bi_x].0 == x);
                assert(forall|k: int| 0 <= k < bi_x ==> c2[k].0 == c[k].0 && c[k].0 != x);
                if brand_index(c2, x) < bi_x {
                    assert(c2[brand_index(c2, x)].0 == x);
                }
                assert(brand_index(c2, x) == bi_x);
                assert(c2[bi_x].1 == c[bi_x].1);
            } else {
                assert(forall|k: int| 0 <= k < c.len() ==> (#[trigger] c2[k]).0 != x);
                if brand_index(c2, x) < c2.len() {
                    assert(c2[brand_index(c2, x)].0 == x);
                    assert(brand_index(c2, x) == c.len());
                }
                assert(brand_index(c2, x) >= c2.len() || c2[brand_index(c2, x)].0 != x);
                assert(brand_index(c2, x) == c2.len());
            }
        }
    }
}

/// Count how many logical CPUs carry each distinct brand string, in order
/// of first occurrence.
pub fn count_brands(brands: &Vec<String>) -> (r: Vec<(String, u64)>)
    ensures
        r@.len() == counted_brands(brands.deep_view()).len(),
        forall|k: int|
            0 <= k < r@.len() ==> (#[trigger] r@[k]).0@ == counted_brands(brands.deep_view())[k].0
                && r@[k].1 as nat == counted_brands(brands.deep_view())[k].1,
{
    let ghost dv = brands.deep_view();
    let mut r: Vec<(String, u64)> = Vec::new();
    let mut i: usize = 0;
    proof {
        assert(dv.take(0).len() == 0);
    }
    while i < brands.len()
        invariant
            0 <= i <= brands.len(),
            dv == brands.deep_view(),
            dv.len() == brands@.len(),
            forall|k: int| 0 <= k < dv.len() ==> dv[k] == brands@[k]@,
            r@.len() == counted_brands(dv.take(i as int)).len(),
            forall|k: int|
                0 <= k < r@.len() ==> (#[trigger] r@[k]).0@ == counted_brands(dv.take(i as int))[k].0
                    && r@[k].1 as nat == counted_brands(dv.take(i as int))[k].1,
        decreases brands.len() - i,
    {
        let ghost target = counted_brands(dv.take(i as int));
        proof {
            lemma_counted_brands_invariant(dv.take(i as int));
            lemma_brand_index_range(target, dv[i as int]);
            assert(dv.take(i + 1).drop_last() =~= dv.take(i as int));
            assert(dv.take(i + 1).last() == dv[i as int]);
        }
        let mut j: usize = 0;
        while j < r.len() && !(r[j].0 == brands[i])
            invariant
                0 <= j <= r@.len(),
                i < brands@.len(),
                dv == brands.deep_view(),
                dv.len() == brands@.len(),
                forall|k: int| 0 <= k < dv.len() ==> dv[k] == brands@[k]@,
                target == counted_brands(dv.take(i as int)),
                r@.len() == target.len(),
                forall|k: int|
                    0 <= k < r@.len() ==> (#[trigger] r@[k]).0@ == target[k].0 && r@[k].1 as nat
                        == target[k].1,
                forall|k: int| 0 <= k < j ==> target[k].0 != dv[i as int],
            decreases r@.len() - j,
        {
            j = j + 1;
        }
        let found = j < r.len();
        if found {
            assert(target[j as int].0 == dv[i as int]);
            proof {
                assert(brand_index(target, dv[i as int]) == j) by {
                    lemma_brand_index_range(target, dv[i as int]);
                    if brand_index(target, dv[i as int]) < j {
                        assert(target[brand_index(target, dv[i as int])].0 == dv[i as int]);
                    }
                }
            }
            let c = r[j].1;
            assert(c < u64::MAX);
            let b = brands[i].clone();
            r[j] = (b, c + 1);
        } else {
            proof {
                assert(brand_index(target, dv[i as int]) == target.len()) by {
                    lemma_brand_index_range(target, dv[i as int]);
                    if brand_index(target, dv[i as int]) < target.len() {
                        assert(target[brand_index(target, dv[i as int])].0 == dv[i as int]);
                    }
                }
            }
            let b = brands[i].clone();
            r.push((b, 1));
        }
        i = i + 1;
    }
    proof {
        assert(dv.take(dv.len() as int) =~= dv);
    }
    r
}

/// Whether the host counts as virtualized: it is a virtual machine or a
/// container; an absent classification counts as bare metal.
pub open spec fn virt_is_virtualized(virt: Option<VirtReading>) -> bool {
    match virt {
        Option::Some(v) => v.is_vm || v.is_container,
        Option::None => false,
    }
}

/// The reported virtualization name: the classification's own name, or the
/// unknown placeholder when no classification was obtained.
pub open spec fn virt_name(virt: Option<VirtReading>) -> Seq<char> {
    match virt {
        Option::Some(v) => v.name@,
        Option::None => "unknown"@,
    }
}

/// The descriptor's CPU list: one description line per distinct brand in
/// order of first occurrence, each carrying the frequency label and the
/// core count, marked virtual or physical.
pub open spec fn cpu_description_list(
    brands: Seq<Seq<char>>,
    freq_max: Option<u64>,
    virtualized: bool,
) -> Seq<Seq<char>> {
    counted_brands(brands).map(
        |k: int, p: (Seq<char>, nat)| cpu_description(p.0, frequency_label(freq_max), p.1, virtualized),
    )
}

/// Assemble the CPU-related descriptor fields from the per-CPU brand
/// strings, the architecture name, the virtualization classification and
/// the maximum clock frequency. The result carries, in order: one
/// description line per distinct brand, the architecture, and the
/// virtualization name.
pub fn get_cpu_info(
    brands: &Vec<String>,
    arch: String,
    virt: Option<VirtReading>,
    freq_max: Option<u64>,
) -> (r: (Vec<String>, String, String))
    ensures
        r.1@ == arch@,
        r.2@ == virt_name(virt),
        r.0.deep_view() == cpu_description_list(
            brands.deep_view(),
            freq_max,
            virt_is_virtualized(virt),
        ),
{
    let ghost dv = brands.deep_view();
    let counted = count_brands(brands);
    let freq = frequency_string(freq_max);
    let virtualized = match &virt {
        Option::Some(v) => v.is_vm || v.is_container,
        Option::None => false,
    };
    let mut descriptions: Vec<String> = Vec::new();
    let mut k: usize = 0;
    while k < counted.len()
        invariant
            0 <= k <= counted@.len(),
            dv == brands.deep_view(),
            counted@.len() == counted_brands(dv).len(),
            forall|m: int|
                0 <= m < counted@.len() ==> (#[trigger] counted@[m]).0@ == counted_brands(dv)[m].0
                    && counted@[m].1 as nat == counted_brands(dv)[m].1,
            freq@ == frequency_label(freq_max),
            virtualized == virt_is_virtualized(virt),
            descriptions@.len() == k,
            forall|m: int|
                0 <= m < k ==> (#[trigger] descriptions@[m])@ == cpu_description(
                    counted_brands(dv)[m].0,
                    frequency_label(freq_max),
                    counted_brands(dv)[m].1,
                    virt_is_virtualized(virt),
                ),
        decreases counted@.len() - k,
    {
        let line = cpu_description_string(
            counted[k].0.as_str(),
            freq.as_str(),
            counted[k].1,
            virtualized,
        );
        descriptions.push(line);
        k = k + 1;
    }
    let name = match virt {
        Option::Some(v) => v.name,
        Option::None => String::from_str("unknown"),
    };
    (descriptions, arch, name)
}

/// Sum of a sequence of per-CPU usage figures.
pub open spec fn sum_u32(s: Seq<u32>) -> int
    decreases s.len(),
{
    if s.len() == 0 {
        0
    } else {
        sum_u32(s.drop_last()) + s.last()
    }
}

/// The mean CPU usage across all logical CPUs, in hundredths of a percent,
/// rounded down; zero when no per-CPU figures are available.
/// The mean of a sequence of per-CPU usage figures, rounded down; zero for
/// an empty sequence.
pub open spec fn mean_usage(s: Seq<u32>) -> u32 {
    if s.len() == 0 {
        0u32
    } else {
        (sum_u32(s) / (s.len() as int)) as u32
    }
}

pub fn get_cpu_usage(usages: &Vec<u32>) -> (r: u32)
    ensures
        r == mean_usage(usages@),
{
    if usages.len() == 0 {
        return 0;
    }
    let mut acc: u128 = 0;
    let mut i: usize = 0;
    proof {
        assert(usages@.take(0).len() == 0);
    }
    while i < usages.len()
        invariant
            0 <= i <= usages.len(),
            acc == sum_u32(usages@.take(i as int)),
            acc <= i * u32::MAX,
        decreases usages.len() - i,
    {
        proof {
            assert(usages@.take(i + 1).drop_last() =~= usages@.take(i as int));
            assert(usages@.take(i + 1).last() == usages@[i as int]);
        }
        acc = acc + usages[i] as u128;
        i = i + 1;
    }
    proof {
        assert(usages@.take(usages@.len() as int) =~= usages@);
    }
    let len: u128 = usages.len() as u128;
    let mean: u128 = acc / len;
    assert(mean <= u32::MAX) by (nonlinear_arith)
        requires
            acc <= len * u32::MAX,
            len > 0,
            mean == acc / len,
    ;
    mean as u32
}

/// Aggregate per-interface cumulative byte counters and feed them to the
/// rate tracker. On success the result carries the cumulative received and
/// transmitted totals and the per-interval receive and transmit rates; a
/// missing reading fails with the network-stats error and leaves the
/// tracker untouched.
pub fn get_network_info(stats: Option<&Vec<(u64, u64)>>, tracker: &mut NetworkRateTracker) -> (r:
    Result<(u64, u64, u64, u64), AgentError>)
    ensures
        r is Ok <==> stats is Some,
        stats is None ==> r == Result::<(u64, u64, u64, u64), AgentError>::Err(
            AgentError::NetworkStats,
        ) && *final(tracker) == *old(tracker),
        stats matches Option::Some(v) ==> {
            let rx = clamp_u64(sum_fst(v@));
            let tx = clamp_u64(sum_snd(v@));
            r == Result::<(u64, u64, u64, u64), AgentError>::Ok(
                (
                    rx,
                    tx,
                    counter_delta(rx, old(tracker).last_rx),
                    counter_delta(tx, old(tracker).last_tx),
                ),
            ) && final(tracker).last_rx == rx && final(tracker).last_tx == tx
        },
{
    match stats {
        Option::None => Result::Err(AgentError::NetworkStats),
        Option::Some(v) => {
            let (all_rx, all_tx) = sum_pairs(v);
            let (speed_rx, speed_tx) = tracker.update(all_rx, all_tx);
            Result::Ok((all_rx, all_tx, speed_rx, speed_tx))
        },
    }
}

/// Unpack an uptime/load reading, or fail with the uptime-load error when
/// the reading is unavailable. On success the result carries the uptime in
/// seconds and the three load-average figures in hundredths.
pub fn get_uptime_info(reading: Option<UptimeReading>) -> (r: Result<
    (u64, u32, u32, u32),
    AgentError,
>)
    ensures
        r is Ok <==> reading is Some,
        reading is None ==> r == Result::<(u64, u32, u32, u32), AgentError>::Err(
            AgentError::UptimeLoad,
        ),
        reading matches Option::Some(u) ==> r == Result::<(u64, u32, u32, u32), AgentError>::Ok(
            (u.uptime_secs, u.load_one_centi, u.load_five_centi, u.load_fifteen_centi),
        ),
{
    match reading {
        Option::None => Result::Err(AgentError::UptimeLoad),
        Option::Some(u) => Result::Ok(
            (u.uptime_secs, u.load_one_centi, u.load_five_centi, u.load_fifteen_centi),
        ),
    }
}

} // verus!
