//! Pluggable output formatters: a capability that turns a snapshot into a
//! structured document. The registry is keyed by format name, matched
//! without regard to ASCII case; "json" is the one available format, and
//! its serialization is pinned down character for character.

use vstd::prelude::*;
use vstd::string::{StrSliceExecFns, StringExecFns};

use crate::report::{DiskReading, Snapshot};
use crate::text;
use crate::text::dec_rep;

verus! {

/// A snapshot serializer. Formatters are advertised by name in the
/// registry so that other document shapes can be plugged in beside JSON.
pub trait OutputFormatter {
    /// The document for one snapshot.
    fn format(&self, snapshot: &Snapshot) -> String;

    /// The format's registry name.
    fn name(&self) -> &'static str;

    /// The file extension conventionally used for the format.
    fn extension(&self) -> &'static str;
}

/// JSON string-body escaping: a backslash before every quote and
/// backslash, all other characters unchanged.
pub open spec fn json_escape(s: Seq<char>) -> Seq<char>
    decreases s.len(),
{
    if s.len() == 0 {
        Seq::empty()
    } else {
        json_escape(s.drop_last()) + (if s.last() == '"' || s.last() == '\\' {
            seq!['\\', s.last()]
        } else {
            seq![s.last()]
        })
    }
}

/// A JSON string literal: the escaped body between quotes.
pub open spec fn json_string_view(s: Seq<char>) -> Seq<char> {
    seq!['"'] + json_escape(s) + seq!['"']
}

/// A used/total reading as a JSON object.
pub open spec fn json_reading_view(used: nat, total: nat) -> Seq<char> {
    "{\"used\":"@ + dec_rep(used) + ",\"total\":"@ + dec_rep(total) + "}"@
}

/// One disk as a JSON object.
pub open spec fn json_disk_view(d: DiskReading) -> Seq<char> {
    "{\"mount\":"@ + json_string_view(d.mount@) + ",\"used\":"@ + dec_rep(d.used as nat)
        + ",\"total\":"@ + dec_rep(d.total as nat) + "}"@
}

/// The comma-separated disk objects.
pub open spec fn json_disks_view(disks: Seq<DiskReading>) -> Seq<char>
    decreases disks.len(),
{
    if disks.len() == 0 {
        Seq::empty()
    } else if disks.len() == 1 {
        json_disk_view(disks.last())
    } else {
        json_disks_view(disks.drop_last()) + ","@ + json_disk_view(disks.last())
    }
}

/// The whole snapshot as one JSON document: CPU utilization in tenths of
/// a percent, the memory and swap readings, and the disk list.
pub open spec fn json_view(s: Snapshot) -> Seq<char> {
    "{\"cpu_percent_tenths\":"@ + dec_rep(s.cpu_tenths as nat) + ",\"memory\":"@
        + json_reading_view(s.memory.used as nat, s.memory.total as nat) + ",\"swap\":"@
        + json_reading_view(s.swap.used as nat, s.swap.total as nat) + ",\"disks\":["@
        + json_disks_view(s.disks@) + "]}"@
}

/// Relies on `String::push` of std: it appends the given character to the
/// end of the string, and nothing else.
#[verifier::external_body]
fn push_char(s: &mut String, c: char)
    ensures
        final(s)@ == old(s)@ + seq![c],
{
    s.push(c);
}

fn append_json_string(out: &mut String, s: &str)
    ensures
        final(out)@ == old(out)@ + json_string_view(s@),
{
    proof {
        reveal_strlit("\"");
        reveal_strlit("\\\"");
        reveal_strlit("\\\\");
        assert("\""@ =~= seq!['"']);
        assert("\\\""@ =~= seq!['\\', '"']);
        assert("\\\\"@ =~= seq!['\\', '\\']);
    }
    out.append("\"");
    let ghost pre = out@;
    let n = s.unicode_len();
    let mut i: usize = 0;
    while i < n
        invariant
            i <= n,
            n == s@.len(),
            out@ == pre + json_escape(s@.take(i as int)),
            "\\\""@ == seq!['\\', '"'],
            "\\\\"@ == seq!['\\', '\\'],
        decreases n - i,
    {
        let c = s.get_char(i);
        if c == '"' {
            out.append("\\\"");
        } else if c == '\\' {
            out.append("\\\\");
        } else {
            push_char(out, c);
        }
        proof {
            assert(s@.take(i + 1).drop_last() =~= s@.take(i as int));
            assert(out@ =~= pre + json_escape(s@.take(i + 1)));
        }
        i = i + 1;
    }
    proof {
        assert(s@.take(s@.len() as int) =~= s@);
    }
    out.append("\"");
    proof {
        assert(out@ =~= old(out)@ + json_string_view(s@));
    }
}

fn append_json_reading(out: &mut String, used: u64, total: u64)
    ensures
        final(out)@ == old(out)@ + json_reading_view(used as nat, total as nat),
{
    out.append("{\"used\":");
    text::append_u64(out, used);
    out.append(",\"total\":");
    text::append_u64(out, total);
    out.append("}");
    proof {
        assert(out@ =~= old(out)@ + json_reading_view(used as nat, total as nat));
    }
}

fn append_json_disk(out: &mut String, d: &DiskReading)
    ensures
        final(out)@ == old(out)@ + json_disk_view(*d),
{
    out.append("{\"mount\":");
    append_json_string(out, d.mount.as_str());
    out.append(",\"used\":");
    text::append_u64(out, d.used);
    out.append(",\"total\":");
    text::append_u64(out, d.total);
    out.append("}");
    proof {
        assert(out@ =~= old(out)@ + json_disk_view(*d));
    }
}

/// The JSON document for the snapshot `s`, exactly `json_view`.
pub fn format_json(s: &Snapshot) -> (r: String)
    ensures
        r@ == json_view(*s),
{
    let mut out = "{\"cpu_percent_tenths\":".to_owned();
    text::append_u64(&mut out, s.cpu_tenths);
    out.append(",\"memory\":");
    append_json_reading(&mut out, s.memory.used, s.memory.total);
    out.append(",\"swap\":");
    append_json_reading(&mut out, s.swap.used, s.swap.total);
    out.append(",\"disks\":[");
    let ghost pre = out@;
    let mut i: usize = 0;
    while i < s.disks.len()
        invariant
            i <= s.disks.len(),
            out@ == pre + json_disks_view(s.disks@.take(i as int)),
        decreases s.disks.len() - i,
    {
        if i > 0 {
            out.append(",");
        }
        append_json_disk(&mut out, &s.disks[i]);
        proof {
            assert(s.disks@.take(i + 1).drop_last() =~= s.disks@.take(i as int));
            assert(out@ =~= pre + json_disks_view(s.disks@.take(i + 1)));
        }
        i = i + 1;
    }
    proof {
        assert(s.disks@.take(s.disks@.len() as int) =~= s.disks@);
    }
    out.append("]}");
    proof {
        assert(out@ =~= json_view(*s));
    }
    out
}

/// The JSON output format.
pub struct JsonFormatter {}

impl OutputFormatter for JsonFormatter {
    fn format(&self, snapshot: &Snapshot) -> String {
        format_json(snapshot)
    }

    fn name(&self) -> &'static str {
        "json"
    }

    fn extension(&self) -> &'static str {
        "json"
    }
}

/// Whether `s` is the format name "json", compared without regard to
/// ASCII case.
pub open spec fn is_json_name(s: Seq<char>) -> bool {
    s.len() == 4 && (s[0] == 'j' || s[0] == 'J') && (s[1] == 's' || s[1] == 'S') && (s[2] == 'o'
        || s[2] == 'O') && (s[3] == 'n' || s[3] == 'N')
}

/// The formatter registered under `format`, if any: the name "json", in
/// any ASCII casing, yields the JSON formatter; every other name yields
/// nothing.
pub fn get_formatter(format: &str) -> (r: Option<JsonFormatter>)
    ensures
        r is Some <==> is_json_name(format@),
{
    let n = format.unicode_len();
    if n != 4 {
        return None;
    }
    let c0 = format.get_char(0);
    let c1 = format.get_char(1);
    let c2 = format.get_char(2);
    let c3 = format.get_char(3);
    if (c0 == 'j' || c0 == 'J') && (c1 == 's' || c1 == 'S') && (c2 == 'o' || c2 == 'O') && (c3
        == 'n' || c3 == 'N') {
        Some(JsonFormatter {  })
    } else {
        None
    }
}

/// The names of every available output format.
pub fn available_formats() -> (r: Vec<&'static str>)
    ensures
        r@.len() == 1,
        r@[0]@ == "json"@,
{
    let mut v: Vec<&'static str> = Vec::new();
    v.push("json");
    v
}

} // verus!
