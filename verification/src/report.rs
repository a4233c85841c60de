//! The presenter's pure half: a snapshot of metric readings and the
//! rendering of one full report screen from it. The caller collects the
//! readings, prints the rendered text, and handles timing; everything the
//! report says is fixed here, character for character.

use vstd::prelude::*;
use vstd::string::StringExecFns;

use crate::text;
use crate::text::tenths_rep;
use crate::{
    bar_view, calculate_percentage, format_bytes, format_bytes_view, generate_progress_bar,
    percent_tenths_sat,
};

verus! {

/// One used/total capacity reading, in bytes or an abstract capacity.
pub struct Reading {
    pub used: u64,
    pub total: u64,
}

/// One mounted volume: a mount-path identifier and its capacity reading.
pub struct DiskReading {
    pub mount: String,
    pub used: u64,
    pub total: u64,
}

/// One complete set of metric readings taken at a single refresh.
/// CPU utilization is carried in tenths of a percent.
pub struct Snapshot {
    pub cpu_tenths: u64,
    pub memory: Reading,
    pub swap: Reading,
    pub disks: Vec<DiskReading>,
}

/// The part of a capacity section after its label: percentage, the
/// used/total byte counts in parentheses, and the progress bar line.
pub open spec fn capacity_tail_view(used: nat, total: nat, use_color: bool) -> Seq<char> {
    let p = percent_tenths_sat(used, total);
    tenths_rep(p) + "% ("@ + format_bytes_view(used) + " / "@ + format_bytes_view(total) + ")\n"@
        + bar_view(p, 1000, use_color) + "\n"@
}

/// The CPU section: usage line and progress bar.
pub open spec fn cpu_section_view(cpu_tenths: nat, use_color: bool) -> Seq<char> {
    "CPU Usage: "@ + tenths_rep(cpu_tenths) + "%\n"@ + bar_view(cpu_tenths, 1000, use_color)
        + "\n"@
}

/// One volume's entry in the disk section.
pub open spec fn disk_line_view(d: DiskReading, use_color: bool) -> Seq<char> {
    "  "@ + d.mount@ + ": "@ + capacity_tail_view(d.used as nat, d.total as nat, use_color)
}

/// The disk entries in order.
pub open spec fn disks_view(disks: Seq<DiskReading>, use_color: bool) -> Seq<char>
    decreases disks.len(),
{
    if disks.len() == 0 {
        Seq::empty()
    } else {
        disks_view(disks.drop_last(), use_color) + disk_line_view(disks.last(), use_color)
    }
}

/// Everything one refresh prints: the title banner, the CPU and memory
/// sections, the swap section (omitted entirely when total swap capacity
/// is zero), the disk section, and the trailing prompt line.
pub open spec fn report_view(s: Snapshot, use_color: bool) -> Seq<char> {
    "=== SYSTEM MONITOR ===\n\n"@ + cpu_section_view(s.cpu_tenths as nat, use_color) + "\n"@
        + "Memory: "@ + capacity_tail_view(s.memory.used as nat, s.memory.total as nat, use_color)
        + (if s.swap.total > 0 {
        "Swap: "@ + capacity_tail_view(s.swap.used as nat, s.swap.total as nat, use_color)
    } else {
        Seq::<char>::empty()
    }) + "\n"@ + "Disk Usage:\n"@ + disks_view(s.disks@, use_color) + "\n"@
        + "Press Ctrl+C to exit...\n"@
}

proof fn lemma_capacity_tail_esc_free(used: nat, total: nat)
    ensures
        text::esc_free(capacity_tail_view(used, total, false)),
{
    reveal_strlit("% (");
    reveal_strlit(" / ");
    reveal_strlit(")\n");
    reveal_strlit("\n");
    let p = percent_tenths_sat(used, total);
    text::lemma_tenths_rep_esc_free(p);
    crate::lemma_format_bytes_esc_free(used);
    crate::lemma_format_bytes_esc_free(total);
    crate::lemma_plain_bar_esc_free(p, 1000);
    let a1 = tenths_rep(p);
    let a2 = a1 + "% ("@;
    let a3 = a2 + format_bytes_view(used);
    let a4 = a3 + " / "@;
    let a5 = a4 + format_bytes_view(total);
    let a6 = a5 + ")\n"@;
    let a7 = a6 + crate::bar_view(p, 1000, false);
    text::lemma_esc_free_concat(a1, "% ("@);
    text::lemma_esc_free_concat(a2, format_bytes_view(used));
    text::lemma_esc_free_concat(a3, " / "@);
    text::lemma_esc_free_concat(a4, format_bytes_view(total));
    text::lemma_esc_free_concat(a5, ")\n"@);
    text::lemma_esc_free_concat(a6, crate::bar_view(p, 1000, false));
    text::lemma_esc_free_concat(a7, "\n"@);
}

proof fn lemma_disks_esc_free(disks: Seq<DiskReading>)
    requires
        forall|i: int| 0 <= i < disks.len() ==> text::esc_free(#[trigger] disks[i].mount@),
    ensures
        text::esc_free(disks_view(disks, false)),
    decreases disks.len(),
{
    reveal_strlit("  ");
    reveal_strlit(": ");
    if disks.len() > 0 {
        lemma_disks_esc_free(disks.drop_last());
        let d = disks.last();
        lemma_capacity_tail_esc_free(d.used as nat, d.total as nat);
        let b1 = "  "@ + d.mount@;
        let b2 = b1 + ": "@;
        text::lemma_esc_free_concat("  "@, d.mount@);
        text::lemma_esc_free_concat(b1, ": "@);
        text::lemma_esc_free_concat(
            b2,
            capacity_tail_view(d.used as nat, d.total as nat, false),
        );
        text::lemma_esc_free_concat(disks_view(disks.drop_last(), false), disk_line_view(d, false));
    }
}

/// With color disabled, a rendered report holds no ANSI escape character
/// anywhere, as long as no mount-path identifier holds one itself: the
/// mount paths are the only outside text that enters the report.
pub proof fn lemma_no_color_report_esc_free(s: Snapshot)
    requires
        forall|i: int| 0 <= i < s.disks@.len() ==> text::esc_free(#[trigger] s.disks@[i].mount@),
    ensures
        text::esc_free(report_view(s, false)),
{
    reveal_strlit("=== SYSTEM MONITOR ===\n\n");
    reveal_strlit("CPU Usage: ");
    reveal_strlit("%\n");
    reveal_strlit("\n");
    reveal_strlit("Memory: ");
    reveal_strlit("Swap: ");
    reveal_strlit("Disk Usage:\n");
    reveal_strlit("Press Ctrl+C to exit...\n");
    let cpu = s.cpu_tenths as nat;
    text::lemma_tenths_rep_esc_free(cpu);
    crate::lemma_plain_bar_esc_free(cpu, 1000);
    let c1 = "CPU Usage: "@ + tenths_rep(cpu);
    let c2 = c1 + "%\n"@;
    let c3 = c2 + crate::bar_view(cpu, 1000, false);
    text::lemma_esc_free_concat("CPU Usage: "@, tenths_rep(cpu));
    text::lemma_esc_free_concat(c1, "%\n"@);
    text::lemma_esc_free_concat(c2, crate::bar_view(cpu, 1000, false));
    text::lemma_esc_free_concat(c3, "\n"@);
    assert(text::esc_free(cpu_section_view(cpu, false)));
    lemma_capacity_tail_esc_free(s.memory.used as nat, s.memory.total as nat);
    lemma_capacity_tail_esc_free(s.swap.used as nat, s.swap.total as nat);
    lemma_disks_esc_free(s.disks@);
    let swap_part = if s.swap.total > 0 {
        "Swap: "@ + capacity_tail_view(s.swap.used as nat, s.swap.total as nat, false)
    } else {
        Seq::<char>::empty()
    };
    if s.swap.total > 0 {
        text::lemma_esc_free_concat(
            "Swap: "@,
            capacity_tail_view(s.swap.used as nat, s.swap.total as nat, false),
        );
    }
    let r1 = "=== SYSTEM MONITOR ===\n\n"@ + cpu_section_view(cpu, false);
    let r2 = r1 + "\n"@;
    let r3 = r2 + "Memory: "@;
    let r4 = r3 + capacity_tail_view(s.memory.used as nat, s.memory.total as nat, false);
    let r5 = r4 + swap_part;
    let r6 = r5 + "\n"@;
    let r7 = r6 + "Disk Usage:\n"@;
    let r8 = r7 + disks_view(s.disks@, false);
    let r9 = r8 + "\n"@;
    text::lemma_esc_free_concat("=== SYSTEM MONITOR ===\n\n"@, cpu_section_view(cpu, false));
    text::lemma_esc_free_concat(r1, "\n"@);
    text::lemma_esc_free_concat(r2, "Memory: "@);
    text::lemma_esc_free_concat(
        r3,
        capacity_tail_view(s.memory.used as nat, s.memory.total as nat, false),
    );
    text::lemma_esc_free_concat(r4, swap_part);
    text::lemma_esc_free_concat(r5, "\n"@);
    text::lemma_esc_free_concat(r6, "Disk Usage:\n"@);
    text::lemma_esc_free_concat(r7, disks_view(s.disks@, false));
    text::lemma_esc_free_concat(r8, "\n"@);
    text::lemma_esc_free_concat(r9, "Press Ctrl+C to exit...\n"@);
}

fn append_capacity_tail(out: &mut String, used: u64, total: u64, use_color: bool)
    ensures
        final(out)@ == old(out)@ + capacity_tail_view(used as nat, total as nat, use_color),
{
    let p = calculate_percentage(used, total);
    text::append_tenths(out, p);
    out.append("% (");
    let used_text = format_bytes(used);
    out.append(used_text.as_str());
    out.append(" / ");
    let total_text = format_bytes(total);
    out.append(total_text.as_str());
    out.append(")\n");
    let bar = generate_progress_bar(p, 1000, use_color);
    out.append(bar.as_str());
    out.append("\n");
    proof {
        assert(out@ =~= old(out)@ + capacity_tail_view(used as nat, total as nat, use_color));
    }
}

/// The text of one full report screen for the snapshot `s`, exactly the
/// sections of `report_view` in order. The caller only has to print it.
#[verifier::rlimit(50)]
pub fn render_report(s: &Snapshot, use_color: bool) -> (r: String)
    ensures
        r@ == report_view(*s, use_color),
{
    let mut out = "=== SYSTEM MONITOR ===\n\n".to_owned();
    out.append("CPU Usage: ");
    text::append_tenths(&mut out, s.cpu_tenths);
    out.append("%\n");
    let bar = generate_progress_bar(s.cpu_tenths, 1000, use_color);
    out.append(bar.as_str());
    out.append("\n");
    out.append("\n");
    out.append("Memory: ");
    append_capacity_tail(&mut out, s.memory.used, s.memory.total, use_color);
    if s.swap.total > 0 {
        out.append("Swap: ");
        append_capacity_tail(&mut out, s.swap.used, s.swap.total, use_color);
    }
    out.append("\n");
    out.append("Disk Usage:\n");
    let ghost pre = out@;
    let mut i: usize = 0;
    while i < s.disks.len()
        invariant
            i <= s.disks.len(),
            out@ == pre + disks_view(s.disks@.take(i as int), use_color),
        decreases s.disks.len() - i,
    {
        let d = &s.disks[i];
        out.append("  ");
        out.append(d.mount.as_str());
        out.append(": ");
        append_capacity_tail(&mut out, d.used, d.total, use_color);
        proof {
            assert(s.disks@.take(i + 1).drop_last() =~= s.disks@.take(i as int));
            assert(out@ =~= pre + disks_view(s.disks@.take(i + 1), use_color));
        }
        i = i + 1;
    }
    proof {
        assert(s.disks@.take(s.disks@.len() as int) =~= s.disks@);
    }
    out.append("\n");
    out.append("Press Ctrl+C to exit...\n");
    proof {
        assert(out@ =~= report_view(*s, use_color));
    }
    out
}

} // verus!
