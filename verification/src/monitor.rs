//! Monitor descriptions and the textual report printed for them.
//!
//! Each monitor is reported as one block of three lines: a label with the
//! monitor's name (or a placeholder), the current mode, and the position.
//! Blocks appear in the order the platform reported the monitors, with no
//! filtering or reordering.

use vstd::prelude::*;
use vstd::string::StringExecFns;
use crate::decimal::{dec_str, int_str, u64_to_string, i64_to_string};

verus! {

/// What the platform reports for one monitor: an optional display name,
/// the pixel size of the current mode, and the position offset relative to
/// the virtual desktop origin.
pub struct MonitorInfo {
    pub name: Option<String>,
    pub width: u32,
    pub height: u32,
    pub x: i32,
    pub y: i32,
}

/// Two monitor descriptions are alike when every reported field agrees.
pub open spec fn monitor_like(a: MonitorInfo, b: MonitorInfo) -> bool {
    &&& a.name.deep_view() == b.name.deep_view()
    &&& a.width == b.width
    &&& a.height == b.height
    &&& a.x == b.x
    &&& a.y == b.y
}

/// Whether a monitor is labeled as the primary one: it must equal the
/// monitor the platform designated as primary, if any.
pub open spec fn is_primary_spec(primary: Option<MonitorInfo>, m: MonitorInfo) -> bool {
    match primary {
        Some(p) => monitor_like(p, m),
        None => false,
    }
}

/// The label that opens a monitor's block.
pub open spec fn label_spec(is_primary: bool) -> Seq<char> {
    if is_primary {
        "Primary monitor"@
    } else {
        "Monitor"@
    }
}

/// The name as printed: the monitor's own name, or a placeholder when the
/// platform reported none.
pub open spec fn name_spec(name: Option<Seq<char>>) -> Seq<char> {
    match name {
        Some(n) => n,
        None => "[no name]"@,
    }
}

/// The full three-line block printed for one monitor.
pub open spec fn block_spec(m: MonitorInfo, is_primary: bool) -> Seq<char> {
    label_spec(is_primary) + ": "@ + name_spec(m.name.deep_view()) + "\n"@
        + "Current mode: +"@ + dec_str(m.width as nat) + "x"@ + dec_str(m.height as nat)
        + "+\n"@ + "  Position: "@ + int_str(m.x as int) + ","@ + int_str(m.y as int) + "\n"@
}

/// The block of every reported monitor, in the reported order.
pub open spec fn blocks_spec(primary: Option<MonitorInfo>, monitors: Seq<MonitorInfo>) -> Seq<
    Seq<char>,
> {
    monitors.map(|i: int, m: MonitorInfo| block_spec(m, is_primary_spec(primary, m)))
}

/// All the blocks joined into the report that is printed.
pub open spec fn report_of(blocks: Seq<Seq<char>>) -> Seq<char>
    decreases blocks.len(),
{
    if blocks.len() == 0 {
        Seq::empty()
    } else {
        blocks[0] + report_of(blocks.drop_first())
    }
}

/// The whole monitor report for a reported primary monitor and monitor list.
pub open spec fn report_spec(primary: Option<MonitorInfo>, monitors: Seq<MonitorInfo>) -> Seq<
    char,
> {
    report_of(blocks_spec(primary, monitors))
}

/// Compares two optional names field by field.
fn name_eq(a: &Option<String>, b: &Option<String>) -> (r: bool)
    ensures
        r == (a.deep_view() == b.deep_view()),
{
    match (a, b) {
        (Some(x), Some(y)) => x.eq(y),
        (None, None) => true,
        _ => false,
    }
}

impl MonitorInfo {
    /// Whether every reported field of `self` agrees with `other`.
    pub fn same_monitor(&self, other: &MonitorInfo) -> (r: bool)
        ensures
            r == monitor_like(*self, *other),
    {
        name_eq(&self.name, &other.name) && self.width == other.width
            && self.height == other.height && self.x == other.x && self.y == other.y
    }
}

/// The label for one monitor, given whether it is the primary one.
fn label(is_primary: bool) -> (r: &'static str)
    ensures
        r@ == label_spec(is_primary),
{
    if is_primary {
        "Primary monitor"
    } else {
        "Monitor"
    }
}

/// Renders the three-line block for one monitor.
pub fn render_block(m: &MonitorInfo, is_primary: bool) -> (r: String)
    ensures
        r@ == block_spec(*m, is_primary),
{
    let mut out = String::new();
    out.append(label(is_primary));
    out.append(": ");
    match &m.name {
        Some(n) => out.append(n.as_str()),
        None => out.append("[no name]"),
    }
    out.append("\n");
    out.append("Current mode: +");
    let w = u64_to_string(m.width as u64);
    out.append(w.as_str());
    out.append("x");
    let h = u64_to_string(m.height as u64);
    out.append(h.as_str());
    out.append("+\n");
    out.append("  Position: ");
    let xs = i64_to_string(m.x as i64);
    out.append(xs.as_str());
    out.append(",");
    let ys = i64_to_string(m.y as i64);
    out.append(ys.as_str());
    out.append("\n");
    proof {
        assert(out@ =~= block_spec(*m, is_primary));
    }
    out
}

/// Appending one block extends the joined report by exactly that block.
proof fn lemma_report_of_push(blocks: Seq<Seq<char>>, b: Seq<char>)
    ensures
        report_of(blocks.push(b)) == report_of(blocks) + b,
    decreases blocks.len(),
{
    if blocks.len() == 0 {
        assert(blocks.push(b).drop_first() =~= Seq::<Seq<char>>::empty());
        assert(report_of(blocks.push(b)) == b + report_of(blocks.push(b).drop_first()));
        assert(report_of(blocks.push(b).drop_first()) =~= Seq::<char>::empty());
        assert(report_of(blocks.push(b)) =~= report_of(blocks) + b);
    } else {
        let rest = blocks.drop_first();
        assert(blocks.push(b).drop_first() =~= rest.push(b));
        lemma_report_of_push(rest, b);
        assert(blocks.push(b)[0] == blocks[0]);
        assert(report_of(blocks.push(b)) == blocks[0] + (report_of(rest) + b));
        assert(report_of(blocks) == blocks[0] + report_of(rest));
        assert(blocks[0] + (report_of(rest) + b) =~= (blocks[0] + report_of(rest)) + b);
    }
}

/// The report has exactly one block per reported monitor, in the reported
/// order, with no filtering or reordering: the block at each position is
/// the block of the monitor reported at that position.
pub proof fn lemma_one_block_per_monitor(primary: Option<MonitorInfo>, monitors: Seq<MonitorInfo>)
    ensures
        blocks_spec(primary, monitors).len() == monitors.len(),
        forall|i: int|
            0 <= i < monitors.len() ==> blocks_spec(primary, monitors)[i] == block_spec(
                monitors[i],
                is_primary_spec(primary, monitors[i]),
            ),
{
}

/// Each monitor's block opens with its label.
pub proof fn lemma_block_starts_with_label(m: MonitorInfo, is_primary: bool)
    ensures
        block_spec(m, is_primary).take(label_spec(is_primary).len() as int) == label_spec(
            is_primary,
        ),
{
    assert(block_spec(m, is_primary).take(label_spec(is_primary).len() as int) =~= label_spec(
        is_primary,
    ));
}

/// When the platform reports no primary monitor, no block carries the
/// primary label; when the reported primary occurs at most once in the
/// list, at most one block carries it, and if the primary occurs at all,
/// some block carries it.
pub proof fn lemma_primary_label(primary: Option<MonitorInfo>, monitors: Seq<MonitorInfo>)
    requires
        forall|i: int, j: int|
            0 <= i < monitors.len() && 0 <= j < monitors.len() && primary is Some && monitor_like(
                primary.unwrap(),
                monitors[i],
            ) && monitor_like(primary.unwrap(), monitors[j]) ==> i == j,
    ensures
        primary is None ==> forall|i: int|
            0 <= i < monitors.len() ==> !is_primary_spec(primary, monitors[i]),
        forall|i: int, j: int|
            0 <= i < monitors.len() && 0 <= j < monitors.len() && is_primary_spec(
                primary,
                monitors[i],
            ) && is_primary_spec(primary, monitors[j]) ==> i == j,
        (primary is Some && (exists|i: int|
            0 <= i < monitors.len() && monitor_like(primary.unwrap(), monitors[i]))) ==> (exists|
            i: int,
        |
            0 <= i < monitors.len() && is_primary_spec(primary, monitors[i])),
{
}

/// A monitor with no name is reported with the literal placeholder; one
/// with a name is reported with exactly that name.
pub proof fn lemma_name_rendering(m: MonitorInfo)
    ensures
        m.name is None ==> name_spec(m.name.deep_view()) == "[no name]"@,
        m.name is Some ==> name_spec(m.name.deep_view()) == m.name.unwrap()@,
{
}

/// Renders the report for every reported monitor, in the reported order:
/// one block per monitor, the primary label exactly on the monitors that
/// equal the reported primary one, and nothing at all for an empty list.
pub fn render_report(primary: &Option<MonitorInfo>, monitors: &Vec<MonitorInfo>) -> (r: String)
    ensures
        r@ == report_spec(*primary, monitors@),
{
    let ghost blocks = blocks_spec(*primary, monitors@);
    let mut out = String::new();
    proof {
        assert(blocks.take(0) =~= Seq::<Seq<char>>::empty());
    }
    let mut i: usize = 0;
    while i < monitors.len()
        invariant
            i <= monitors.len(),
            blocks == blocks_spec(*primary, monitors@),
            blocks.len() == monitors@.len(),
            out@ == report_of(blocks.take(i as int)),
        decreases monitors.len() - i,
    {
        let m = &monitors[i];
        let is_primary = match primary {
            Some(p) => p.same_monitor(m),
            None => false,
        };
        let block = render_block(m, is_primary);
        out.append(block.as_str());
        proof {
            assert(blocks[i as int] == block_spec(monitors@[i as int], is_primary_spec(*primary, monitors@[i as int])));
            assert(blocks.take(i as int + 1) =~= blocks.take(i as int).push(blocks[i as int]));
            lemma_report_of_push(blocks.take(i as int), blocks[i as int]);
        }
        i = i + 1;
    }
    proof {
        assert(blocks.take(monitors@.len() as int) =~= blocks);
    }
    out
}

} // verus!
