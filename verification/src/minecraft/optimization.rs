//! JVM tuning presets.

use vstd::prelude::*;
use crate::text::{concat3, decimal, decimal_chars};

verus! {

/// A JVM tuning preset: heap sizing plus G1 flags.
#[derive(Debug, Clone, Copy, PartialEq, Eq, Structural)]
pub enum OptimizationProfile {
    Low,
    Mid,
    High,
    Custom,
}

impl Default for OptimizationProfile {
    fn default() -> (r: Self)
        ensures
            r == OptimizationProfile::Mid,
    {
        OptimizationProfile::Mid
    }
}

pub open spec fn max_u(a: int, b: int) -> int {
    if a < b {
        b
    } else {
        a
    }
}

pub open spec fn clamp_u(a: int, lo: int, hi: int) -> int {
    if a < lo {
        lo
    } else if a > hi {
        hi
    } else {
        a
    }
}

/// The maximum heap, in MiB, that a profile asks for with `mb` MiB of memory.
pub open spec fn xmx_mb(p: OptimizationProfile, mb: int) -> int {
    match p {
        OptimizationProfile::Low => max_u(mb * 3 / 4, 2048),
        OptimizationProfile::Mid => max_u(mb * 3 / 4, 4096),
        OptimizationProfile::High => max_u(mb * 7 / 8, 8192),
        OptimizationProfile::Custom => 0,
    }
}

/// The initial heap, in MiB, that a profile asks for with `mb` MiB of memory.
pub open spec fn xms_mb(p: OptimizationProfile, mb: int) -> int {
    match p {
        OptimizationProfile::Low => clamp_u(mb / 8, 512, 1024),
        OptimizationProfile::Mid => clamp_u(mb / 4, 1024, 2048),
        OptimizationProfile::High => clamp_u(mb / 4, 2048, 4096),
        OptimizationProfile::Custom => 0,
    }
}

/// Whether `mb * factor` fits in a `u32` for the profile's heap formula
/// (the custom profile computes nothing from the memory).
pub open spec fn memory_fits(p: OptimizationProfile, mb: int) -> bool {
    match p {
        OptimizationProfile::High => mb * 7 <= u32::MAX,
        OptimizationProfile::Custom => true,
        _ => mb * 3 <= u32::MAX,
    }
}

pub open spec fn g1_common() -> Seq<Seq<char>> {
    seq![
        "-XX:+UseG1GC"@,
        "-XX:+UnlockExperimentalVMOptions"@,
        "-XX:G1NewSizePercent=20"@,
        "-XX:G1ReservePercent=20"@,
        "-XX:MaxGCPauseMillis=50"@,
    ]
}

pub open spec fn g1_tail() -> Seq<Seq<char>> {
    seq!["-XX:+UseStringDeduplication"@, "-XX:+DisableExplicitGC"@, "-XX:-OmitStackTraceInFastThrow"@]
}

/// The JVM arguments of a profile for `mb` MiB of memory.
pub open spec fn profile_args(p: OptimizationProfile, mb: int) -> Seq<Seq<char>> {
    let heap = seq![
        "-Xmx"@ + decimal(xmx_mb(p, mb) as nat) + "M"@,
        "-Xms"@ + decimal(xms_mb(p, mb) as nat) + "M"@,
    ];
    match p {
        OptimizationProfile::Low => heap + g1_common() + seq!["-XX:G1HeapRegionSize=32M"@]
            + g1_tail() + seq![
            "-XX:MaxDirectMemorySize=512M"@,
            "-Dfml.ignoreInvalidMinecraftCertificates=true"@,
            "-Dfml.ignorePatchDiscrepancies=true"@,
        ],
        OptimizationProfile::Mid => heap + g1_common() + seq!["-XX:G1HeapRegionSize=64M"@]
            + g1_tail(),
        OptimizationProfile::High => heap + g1_common() + seq!["-XX:G1HeapRegionSize=64M"@]
            + g1_tail() + seq!["-XX:+UseCompressedOops"@, "-XX:+UseCompressedClassPointers"@],
        OptimizationProfile::Custom => Seq::empty(),
    }
}

pub open spec fn string_views(v: Seq<String>) -> Seq<Seq<char>> {
    v.map_values(|s: String| s@)
}

fn push_str(v: &mut Vec<String>, s: &str)
    ensures
        string_views(final(v)@) == string_views(old(v)@).push(s@),
{
    v.push(s.to_owned());
    proof {
        assert(string_views(v@) =~= string_views(old(v)@).push(s@));
    }
}

impl OptimizationProfile {
    pub fn as_str(&self) -> (r: &'static str)
        ensures
            r@ == (match *self {
                OptimizationProfile::Low => "Low"@,
                OptimizationProfile::Mid => "Mid"@,
                OptimizationProfile::High => "High"@,
                OptimizationProfile::Custom => "Custom"@,
            }),
    {
        match self {
            OptimizationProfile::Low => "Low",
            OptimizationProfile::Mid => "Mid",
            OptimizationProfile::High => "High",
            OptimizationProfile::Custom => "Custom",
        }
    }

    /// Every profile, in menu order.
    pub fn all() -> (r: Vec<OptimizationProfile>)
        ensures
            r@ == seq![
                OptimizationProfile::Low,
                OptimizationProfile::Mid,
                OptimizationProfile::High,
                OptimizationProfile::Custom,
            ],
    {
        let mut v = Vec::new();
        v.push(OptimizationProfile::Low);
        v.push(OptimizationProfile::Mid);
        v.push(OptimizationProfile::High);
        v.push(OptimizationProfile::Custom);
        assert(v@ =~= seq![
            OptimizationProfile::Low,
            OptimizationProfile::Mid,
            OptimizationProfile::High,
            OptimizationProfile::Custom,
        ]);
        v
    }

    /// The JVM arguments of this profile for `memory_mb` MiB of memory.
    pub fn jvm_args(&self, memory_mb: u32) -> (r: Vec<String>)
        requires
            memory_fits(*self, memory_mb as int),
        ensures
            string_views(r@) == profile_args(*self, memory_mb as int),
    {
        let mut v: Vec<String> = Vec::new();
        let (xmx, xms): (u32, u32) = match self {
            OptimizationProfile::Low => {
                let a = memory_mb * 3 / 4;
                let b = memory_mb / 8;
                (if a < 2048 { 2048 } else { a }, if b < 512 { 512 } else if b > 1024 { 1024 } else { b })
            },
            OptimizationProfile::Mid => {
                let a = memory_mb * 3 / 4;
                let b = memory_mb / 4;
                (if a < 4096 { 4096 } else { a }, if b < 1024 { 1024 } else if b > 2048 { 2048 } else { b })
            },
            OptimizationProfile::High => {
                let a = memory_mb * 7 / 8;
                let b = memory_mb / 4;
                (if a < 8192 { 8192 } else { a }, if b < 2048 { 2048 } else if b > 4096 { 4096 } else { b })
            },
            OptimizationProfile::Custom => {
                return v;
            },
        };
        v.push(concat3("-Xmx", &decimal_chars(xmx as u64), "M"));
        v.push(concat3("-Xms", &decimal_chars(xms as u64), "M"));
        push_str(&mut v, "-XX:+UseG1GC");
        push_str(&mut v, "-XX:+UnlockExperimentalVMOptions");
        push_str(&mut v, "-XX:G1NewSizePercent=20");
        push_str(&mut v, "-XX:G1ReservePercent=20");
        push_str(&mut v, "-XX:MaxGCPauseMillis=50");
        match self {
            OptimizationProfile::Low => push_str(&mut v, "-XX:G1HeapRegionSize=32M"),
            _ => push_str(&mut v, "-XX:G1HeapRegionSize=64M"),
        }
        push_str(&mut v, "-XX:+UseStringDeduplication");
        push_str(&mut v, "-XX:+DisableExplicitGC");
        push_str(&mut v, "-XX:-OmitStackTraceInFastThrow");
        match self {
            OptimizationProfile::Low => {
                push_str(&mut v, "-XX:MaxDirectMemorySize=512M");
                push_str(&mut v, "-Dfml.ignoreInvalidMinecraftCertificates=true");
                push_str(&mut v, "-Dfml.ignorePatchDiscrepancies=true");
            },
            OptimizationProfile::High => {
                push_str(&mut v, "-XX:+UseCompressedOops");
                push_str(&mut v, "-XX:+UseCompressedClassPointers");
            },
            _ => {},
        }
        assert(string_views(v@) =~= profile_args(*self, memory_mb as int));
        v
    }

    pub fn description(&self) -> (r: &'static str)
        ensures
            r@ == (match *self {
                OptimizationProfile::Low => "4GB RAM / Integrated GPU — balanced heap, smaller regions"@,
                OptimizationProfile::Mid => "8GB RAM / Dedicated GPU — standard G1 tuning"@,
                OptimizationProfile::High => "16GB+ RAM / High-end GPU — larger heap, compressed oops"@,
                OptimizationProfile::Custom => "No preset — uses only memory and manifest defaults"@,
            }),
    {
        match self {
            OptimizationProfile::Low => "4GB RAM / Integrated GPU — balanced heap, smaller regions",
            OptimizationProfile::Mid => "8GB RAM / Dedicated GPU — standard G1 tuning",
            OptimizationProfile::High => "16GB+ RAM / High-end GPU — larger heap, compressed oops",
            OptimizationProfile::Custom => "No preset — uses only memory and manifest defaults",
        }
    }
}

/// The heap that each preset asks for with `mb` MiB: `-Xmx` at three
/// quarters of the memory but at least 2048 MiB (low), 4096 MiB (mid), or
/// seven eighths but at least 8192 MiB (high); `-Xms` at an eighth kept
/// within 512..1024 MiB (low), a quarter within 1024..2048 MiB (mid) or
/// 2048..4096 MiB (high). So the initial heap never exceeds the maximum
/// heap, and the custom preset adds no arguments.
pub proof fn law_heap_sizes(p: OptimizationProfile, mb: int)
    requires
        0 <= mb,
    ensures
        p is Low ==> profile_args(p, mb)[0] == "-Xmx"@ + decimal((if mb * 3 / 4 < 2048 { 2048 } else { mb * 3 / 4 }) as nat) + "M"@
            && profile_args(p, mb)[1] == "-Xms"@ + decimal((if mb / 8 < 512 { 512 } else if mb / 8 > 1024 { 1024 } else { mb / 8 }) as nat) + "M"@,
        p is Mid ==> profile_args(p, mb)[0] == "-Xmx"@ + decimal((if mb * 3 / 4 < 4096 { 4096 } else { mb * 3 / 4 }) as nat) + "M"@
            && profile_args(p, mb)[1] == "-Xms"@ + decimal((if mb / 4 < 1024 { 1024 } else if mb / 4 > 2048 { 2048 } else { mb / 4 }) as nat) + "M"@,
        p is High ==> profile_args(p, mb)[0] == "-Xmx"@ + decimal((if mb * 7 / 8 < 8192 { 8192 } else { mb * 7 / 8 }) as nat) + "M"@
            && profile_args(p, mb)[1] == "-Xms"@ + decimal((if mb / 4 < 2048 { 2048 } else if mb / 4 > 4096 { 4096 } else { mb / 4 }) as nat) + "M"@,
        p !is Custom ==> exists|xmx: nat, xms: nat|
            xms <= xmx && profile_args(p, mb)[0] == "-Xmx"@ + decimal(xmx) + "M"@ && profile_args(p, mb)[1] == "-Xms"@
                + decimal(xms) + "M"@,
        p is Custom ==> profile_args(p, mb).len() == 0,
{
    if p !is Custom {
        let x = xmx_mb(p, mb) as nat;
        let m = xms_mb(p, mb) as nat;
        assert(m <= x);
        assert(profile_args(p, mb)[0] == "-Xmx"@ + decimal(x) + "M"@);
        assert(profile_args(p, mb)[1] == "-Xms"@ + decimal(m) + "M"@);
    }
}

} // verus!
